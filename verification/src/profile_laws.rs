//! What holds of every reading of the profile, whatever the browser does.

use vstd::prelude::*;
use crate::config::PortalConfigView;
use crate::driver::{CommandView, ReplyView, StepView};
use crate::run::{command_of, issued, resume};
use crate::run::{lemma_finished_stays, lemma_resume_concat, lemma_resume_first};
use crate::error::{PortalError, Target};
use crate::poll::{first_arrival, spec_begin, spec_observe, Poll};
use crate::profile::{image_source, profile_next, profile_poll, spec_assemble, spec_from_page};
use crate::profile::visit_row;
use crate::profile::{ProfileDataView, ProfilePhase, ProfileStateView};
use crate::script::{arrives, lemma_polled_out, lemma_polling, never_arrives};
use crate::script::{poll_commands, poll_script, polled_out, polls};
use crate::table::{last_cells, lemma_last_cells_empty, lemma_last_cells_first, Table};

verus! {

/// The transition function of the profile workflow with these settings.
pub open spec fn profile_transition(config: PortalConfigView) -> spec_fn(
    ProfileStateView,
    Option<ReplyView>,
) -> StepView<ProfileStateView, ProfileDataView> {
    |state: ProfileStateView, reply: Option<ReplyView>| profile_next(config, state, reply)
}

/// The step the profile workflow begins with.
pub open spec fn profile_start(config: PortalConfigView) -> StepView<
    ProfileStateView,
    ProfileDataView,
> {
    profile_next(config, ProfileStateView::start(), None)
}

/// Where the profile workflow is after the driver has answered its commands
/// with `replies`.
pub open spec fn profile_run(config: PortalConfigView, replies: Seq<ReplyView>) -> StepView<
    ProfileStateView,
    ProfileDataView,
> {
    resume(profile_transition(config), profile_start(config), replies)
}

/// The commands that the profile workflow has handed the driver by the time
/// the driver has answered with `replies`, in order.
pub open spec fn profile_commands(config: PortalConfigView, replies: Seq<ReplyView>) -> Seq<
    CommandView,
> {
    command_of(profile_start(config)) + issued(
        profile_transition(config),
        profile_start(config),
        replies,
    )
}

/// The replies of a driver while one row is read: how many cells it has,
/// and, being asked for the last of them, its text.
pub open spec fn row_script(row: Seq<Seq<char>>) -> Seq<ReplyView> {
    if row.len() > 0 {
        seq![ReplyView::Count(row.len()), ReplyView::Text(row[row.len() - 1])]
    } else {
        seq![ReplyView::Count(0)]
    }
}

/// The replies of a driver while the rows of `table` are read, one after the
/// other.
pub open spec fn rows_script(table: Table) -> Seq<ReplyView>
    decreases table.len(),
{
    if table.len() == 0 {
        Seq::empty()
    } else {
        row_script(table.first()) + rows_script(table.drop_first())
    }
}

/// The commands that read the rows of `table` from the one with index `row`
/// on: each row's cells are counted, and of a row that has cells the last is
/// read.
pub open spec fn rows_commands(table: Table, row: nat) -> Seq<CommandView>
    decreases table.len() - row,
{
    if row >= table.len() {
        Seq::empty()
    } else {
        let cells: nat = table[row as int].len();
        let rest = rows_commands(table, row + 1);
        if cells > 0 {
            seq![CommandView::CountCells(row), CommandView::ReadCell(row, (cells - 1) as nat)]
                + rest
        } else {
            seq![CommandView::CountCells(row)] + rest
        }
    }
}

/// The replies of a driver while a page is read whose first image has the
/// `src` attribute `image`, or none, whose address panel reads `address` and
/// whose table is `table`.
pub open spec fn page_script(image: Option<Seq<char>>, address: Seq<char>, table: Table) -> Seq<
    ReplyView,
> {
    seq![ReplyView::Attribute(image), ReplyView::Text(address), ReplyView::Count(table.len())]
        + rows_script(table)
}

/// The commands that read a page with this table.
pub open spec fn page_commands(table: Table) -> Seq<CommandView> {
    seq![
        CommandView::ReadSource(Target::ProfileImage),
        CommandView::ReadText(Target::AddressPanel),
        CommandView::CountRows,
    ] + rows_commands(table, 0)
}

/// What a page answers to a command that reads from it: the page's first
/// image has the `src` attribute `image`, or none, its address panel reads
/// `address`, and its table is `table`.
pub open spec fn page_answer(
    image: Option<Seq<char>>,
    address: Seq<char>,
    table: Table,
    command: CommandView,
) -> ReplyView {
    match command {
        CommandView::ReadSource(Target::ProfileImage) => ReplyView::Attribute(image),
        CommandView::ReadText(Target::AddressPanel) => ReplyView::Text(address),
        CommandView::CountRows => ReplyView::Count(table.len()),
        CommandView::CountCells(row) => if row < table.len() {
            ReplyView::Count(table[row as int].len())
        } else {
            ReplyView::Failed
        },
        CommandView::ReadCell(row, cell) => if row < table.len() && cell < table[row as int].len() {
            ReplyView::Text(table[row as int][cell as int])
        } else {
            ReplyView::Failed
        },
        _ => ReplyView::Failed,
    }
}

/// The replies of a driver during a reading of the profile in which the tab
/// opens, takes the address, shows `polled`, one address at each read, and
/// then the page.
pub open spec fn profile_script(
    polled: Seq<Seq<char>>,
    image: Option<Seq<char>>,
    address: Seq<char>,
    table: Table,
) -> Seq<ReplyView> {
    seq![ReplyView::Done, ReplyView::Done] + poll_script(polled) + page_script(
        image,
        address,
        table,
    )
}

/// The replies in `rows_script` are the page's answers to the commands in
/// `rows_commands`, one for one.
proof fn lemma_rows_script_answers(
    image: Option<Seq<char>>,
    address: Seq<char>,
    table: Table,
    row: nat,
)
    requires
        row <= table.len(),
    ensures
        rows_script(table.skip(row as int)) == rows_commands(table, row).map_values(
            |command: CommandView| page_answer(image, address, table, command),
        ),
    decreases table.len() - row,
{
    let answer = |command: CommandView| page_answer(image, address, table, command);
    let rows = table.skip(row as int);
    if row == table.len() {
        assert(rows_script(rows) =~= rows_commands(table, row).map_values(answer));
    } else {
        let rest = table.skip(row as int + 1);
        assert(rows.first() == table[row as int]);
        assert(rows.drop_first() =~= rest);
        lemma_rows_script_answers(image, address, table, row + 1);
        let cells: nat = table[row as int].len();
        let count = seq![CommandView::CountCells(row)];
        let later = rows_commands(table, row + 1);
        if cells > 0 {
            let read = seq![
                CommandView::CountCells(row),
                CommandView::ReadCell(row, (cells - 1) as nat),
            ];
            assert((read + later).map_values(answer) =~= read.map_values(answer)
                + later.map_values(answer));
            assert(read.map_values(answer) =~= row_script(table[row as int]));
        } else {
            assert((count + later).map_values(answer) =~= count.map_values(answer)
                + later.map_values(answer));
            assert(count.map_values(answer) =~= row_script(table[row as int]));
        }
    }
}

/// The replies in `page_script` are what the page answers to the commands
/// that read it, one for one: the count of a row's cells answers the command
/// that counts the cells of that row, and the text of its last cell answers
/// the command that reads that cell.
pub proof fn law_page_script_answers_page_commands(
    image: Option<Seq<char>>,
    address: Seq<char>,
    table: Table,
)
    ensures
        page_script(image, address, table) == page_commands(table).map_values(
            |command: CommandView| page_answer(image, address, table, command),
        ),
{
    let answer = |command: CommandView| page_answer(image, address, table, command);
    let head = seq![
        CommandView::ReadSource(Target::ProfileImage),
        CommandView::ReadText(Target::AddressPanel),
        CommandView::CountRows,
    ];
    lemma_rows_script_answers(image, address, table, 0);
    assert(table.skip(0) =~= table);
    assert((head + rows_commands(table, 0)).map_values(answer) =~= head.map_values(answer)
        + rows_commands(table, 0).map_values(answer));
    assert(head.map_values(answer) =~= seq![
        ReplyView::Attribute(image),
        ReplyView::Text(address),
        ReplyView::Count(table.len()),
    ]);
}

/// Reading the rows of a table from the row with index `state.row` on adds
/// the fields of those rows to the fields read so far, and ends the workflow
/// with the profile made of them.
proof fn lemma_rows(config: PortalConfigView, state: ProfileStateView, table: Table)
    requires
        state.rows == table.len(),
        state.row <= table.len(),
    ensures
        ({
            let transition = profile_transition(config);
            let rows = table.skip(state.row as int);
            &&& resume(transition, visit_row(state), rows_script(rows)) == StepView::<
                ProfileStateView,
                ProfileDataView,
            >::Finished(
                spec_assemble(
                    state.profile_img,
                    state.address,
                    state.student_info + last_cells(rows),
                ),
            )
            &&& command_of(visit_row(state)) + issued(
                transition,
                visit_row(state),
                rows_script(rows),
            ) == rows_commands(table, state.row)
        }),
    decreases table.len() - state.row,
{
    let transition = profile_transition(config);
    let rows = table.skip(state.row as int);
    if state.row == table.len() {
        lemma_last_cells_empty(rows);
        assert(state.student_info + last_cells(rows) =~= state.student_info);
        assert(command_of(visit_row(state)) + Seq::<CommandView>::empty() =~= Seq::<
            CommandView,
        >::empty());
    } else {
        let row = table[state.row as int];
        let rest = table.skip(state.row as int + 1);
        assert(rows.first() == row);
        assert(rows.drop_first() =~= rest);
        lemma_last_cells_first(rows);
        let counting = state.at(ProfilePhase::CountingCells);
        let count = CommandView::CountCells(state.row);
        if row.len() == 0 {
            let next = ProfileStateView { row: state.row + 1, ..counting };
            assert(rows_script(rows) =~= seq![ReplyView::Count(0)] + rows_script(rest));
            lemma_resume_first(transition, counting, count, ReplyView::Count(0), rows_script(rest));
            assert(transition(counting, Some(ReplyView::Count(0))) == visit_row(next));
            lemma_rows(config, next, table);
            assert(seq![count] + rows_commands(table, state.row + 1) =~= rows_commands(
                table,
                state.row,
            ));
        } else {
            let cells: nat = row.len();
            let text = row[cells - 1];
            let reading = counting.at(ProfilePhase::ReadingCell);
            let read = CommandView::ReadCell(state.row, (cells - 1) as nat);
            let next = ProfileStateView {
                row: state.row + 1,
                student_info: state.student_info.push(text),
                ..reading
            };
            let tail = seq![ReplyView::Text(text)] + rows_script(rest);
            assert(rows_script(rows) =~= seq![ReplyView::Count(cells)] + tail);
            lemma_resume_first(transition, counting, count, ReplyView::Count(cells), tail);
            assert(transition(counting, Some(ReplyView::Count(cells))) == (StepView::<
                ProfileStateView,
                ProfileDataView,
            >::Continue { state: reading, command: read }));
            lemma_resume_first(transition, reading, read, ReplyView::Text(text), rows_script(rest));
            assert(transition(reading, Some(ReplyView::Text(text))) == visit_row(next));
            lemma_rows(config, next, table);
            assert(state.student_info.push(text) + last_cells(rest) =~= state.student_info + (
            seq![text] + last_cells(rest)));
            assert(seq![count] + (seq![read] + rows_commands(table, state.row + 1))
                =~= rows_commands(table, state.row));
        }
    }
}

/// Reading a page, from the image on, ends with the profile made of the
/// page: the image's `src`, the address, and the fields of the table.
proof fn lemma_page(
    config: PortalConfigView,
    state: ProfileStateView,
    image: Option<Seq<char>>,
    address: Seq<char>,
    table: Table,
)
    requires
        state.student_info.len() == 0,
    ensures
        ({
            let transition = profile_transition(config);
            let reading = StepView::<ProfileStateView, ProfileDataView>::Continue {
                state: state.at(ProfilePhase::ReadingImage),
                command: CommandView::ReadSource(Target::ProfileImage),
            };
            &&& resume(transition, reading, page_script(image, address, table)) == StepView::<
                ProfileStateView,
                ProfileDataView,
            >::Finished(spec_assemble(image_source(image), address, last_cells(table)))
            &&& command_of(reading) + issued(transition, reading, page_script(image, address, table))
                == page_commands(table)
        }),
{
    let transition = profile_transition(config);
    let at_image = state.at(ProfilePhase::ReadingImage);
    let at_address = ProfileStateView {
        phase: ProfilePhase::ReadingAddress,
        profile_img: image_source(image),
        ..at_image
    };
    let at_rows = ProfileStateView {
        phase: ProfilePhase::CountingRows,
        address,
        ..at_address
    };
    let counted = ProfileStateView { rows: table.len(), row: 0, ..at_rows };
    let script = page_script(image, address, table);
    let after_image = seq![ReplyView::Text(address), ReplyView::Count(table.len())] + rows_script(
        table,
    );
    let after_address = seq![ReplyView::Count(table.len())] + rows_script(table);
    assert(script =~= seq![ReplyView::Attribute(image)] + after_image);
    assert(after_image =~= seq![ReplyView::Text(address)] + after_address);
    lemma_resume_first(
        transition,
        at_image,
        CommandView::ReadSource(Target::ProfileImage),
        ReplyView::Attribute(image),
        after_image,
    );
    lemma_resume_first(
        transition,
        at_address,
        CommandView::ReadText(Target::AddressPanel),
        ReplyView::Text(address),
        after_address,
    );
    lemma_resume_first(
        transition,
        at_rows,
        CommandView::CountRows,
        ReplyView::Count(table.len()),
        rows_script(table),
    );
    assert(transition(at_rows, Some(ReplyView::Count(table.len()))) == visit_row(counted));
    assert(table.skip(0) =~= table);
    lemma_rows(config, counted, table);
    assert(counted.student_info + last_cells(table) =~= last_cells(table));
    assert(seq![CommandView::ReadSource(Target::ProfileImage)] + (seq![
        CommandView::ReadText(Target::AddressPanel),
    ] + (seq![CommandView::CountRows] + rows_commands(table, 0))) =~= page_commands(table));
}

/// The tab's opening and its polling, up to the step at which the polling
/// ends.
proof fn lemma_profile_polling(config: PortalConfigView, polled: Seq<Seq<char>>)
    requires
        polled_out(polled, config.profile_url, config.profile_retries),
    ensures
        ({
            let transition = profile_transition(config);
            let start = ProfileStateView::start();
            let end = if first_arrival(polled, config.profile_url, config.profile_retries as nat)
                is Some {
                profile_poll(start.at(ProfilePhase::Navigating), Poll::Arrived)
            } else {
                profile_poll(start.at(ProfilePhase::Navigating), Poll::Exhausted)
            };
            let script = seq![ReplyView::Done, ReplyView::Done] + poll_script(polled);
            &&& resume(transition, profile_start(config), script) == end
            &&& command_of(profile_start(config)) + issued(
                transition,
                profile_start(config),
                script,
            ) == seq![CommandView::OpenTab, CommandView::Navigate(config.profile_url)]
                + poll_commands(polled.len()) + command_of(end)
        }),
{
    let transition = profile_transition(config);
    let start = ProfileStateView::start();
    let target = config.profile_url;
    let budget: u32 = config.profile_retries;
    let opening = start.at(ProfilePhase::OpeningTab);
    let navigating = start.at(ProfilePhase::Navigating);
    let script = seq![ReplyView::Done, ReplyView::Done] + poll_script(polled);
    let after_open = seq![ReplyView::Done] + poll_script(polled);
    assert(script =~= seq![ReplyView::Done] + after_open);
    lemma_resume_first(transition, opening, CommandView::OpenTab, ReplyView::Done, after_open);
    assert(opening.at(ProfilePhase::Navigating) == navigating);
    lemma_resume_first(
        transition,
        navigating,
        CommandView::Navigate(target),
        ReplyView::Done,
        poll_script(polled),
    );
    let begun = profile_poll(navigating, spec_begin(budget));
    assert(transition(navigating, Some(ReplyView::Done)) == begun);
    let arrived = profile_poll(navigating, Poll::Arrived);
    let exhausted = profile_poll(navigating, Poll::Exhausted);
    let end = if first_arrival(polled, target, budget as nat) is Some {
        arrived
    } else {
        exhausted
    };
    let prefix = seq![CommandView::OpenTab, CommandView::Navigate(target)];
    if budget == 0 {
        assert(polled.len() == 0);
        assert(poll_commands(0) =~= Seq::<CommandView>::empty());
        assert(seq![CommandView::OpenTab] + (seq![CommandView::Navigate(target)] + (command_of(
            begun,
        ) + Seq::<CommandView>::empty())) =~= prefix + poll_commands(polled.len()) + command_of(
            end,
        ));
    } else {
        let pausing = |remaining: u32| navigating.at(ProfilePhase::Pausing(remaining));
        let polling = |remaining: u32| navigating.at(ProfilePhase::Polling(remaining));
        assert forall|remaining: u32| #[trigger]
            transition(pausing(remaining), Some(ReplyView::Done)) == (StepView::<
                ProfileStateView,
                ProfileDataView,
            >::Continue { state: polling(remaining), command: CommandView::ReadUrl }) by {
            assert(pausing(remaining).at(ProfilePhase::Polling(remaining)) == polling(remaining));
        }
        assert forall|remaining: u32, url: Seq<char>| #[trigger]
            transition(polling(remaining), Some(ReplyView::Url(url))) == profile_poll(
                navigating,
                spec_observe(remaining, url, target),
            ) by {
            assert(polling(remaining).at(ProfilePhase::ReadingImage) == navigating.at(
                ProfilePhase::ReadingImage,
            ));
            assert(forall|left: u32|
                polling(remaining).at(ProfilePhase::Pausing(left)) == pausing(left));
        }
        assert(polls(transition, target, pausing, polling, arrived, exhausted));
        lemma_polling(transition, target, pausing, polling, arrived, exhausted, budget, polled);
        let polled_commands = issued(transition, begun, poll_script(polled));
        assert(seq![CommandView::OpenTab] + (seq![CommandView::Navigate(target)] + (command_of(
            begun,
        ) + polled_commands)) =~= prefix + (command_of(begun) + polled_commands));
        assert(prefix + (poll_commands(polled.len()) + command_of(end)) =~= prefix
            + poll_commands(polled.len()) + command_of(end));
    }
}

/// What a reading of the profile comes to, against a browser that behaves.
///
/// The tab opens and takes the address, `polled` are the addresses of a
/// polling that ended at the profile page, and the page has an image with
/// the `src` attribute `image`, or without one, an address panel that reads
/// `address`, and the table `table`. Then the workflow ends with the profile
/// made of these: its image address is the attribute's value, or empty; its
/// fields are the last cells of the rows that have cells, in the order of
/// the rows. Where no row has a cell it ends in `EmptyResult`. It has asked
/// for the tab and the navigation, paused and read once for each of
/// `polled`, read the image and the address, counted the rows, counted the
/// cells of each row, and read the last cell of each row that has cells,
/// and has asked for nothing else.
pub proof fn law_profile_outcome(
    config: PortalConfigView,
    polled: Seq<Seq<char>>,
    image: Option<Seq<char>>,
    address: Seq<char>,
    table: Table,
)
    requires
        arrives(polled, config.profile_url, config.profile_retries),
    ensures
        profile_run(config, profile_script(polled, image, address, table)) == StepView::<
            ProfileStateView,
            ProfileDataView,
        >::Finished(spec_from_page(image, address, table)),
        profile_commands(config, profile_script(polled, image, address, table)) == seq![
            CommandView::OpenTab,
            CommandView::Navigate(config.profile_url),
        ] + poll_commands(polled.len()) + page_commands(table),
{
    let transition = profile_transition(config);
    let start = profile_start(config);
    let front = seq![ReplyView::Done, ReplyView::Done] + poll_script(polled);
    let back = page_script(image, address, table);
    let navigating = ProfileStateView::start().at(ProfilePhase::Navigating);
    lemma_polled_out(polled, config.profile_url, config.profile_retries);
    lemma_profile_polling(config, polled);
    lemma_resume_concat(transition, start, front, back);
    lemma_page(config, navigating, image, address, table);
    let reading = profile_poll(navigating, Poll::Arrived);
    let prefix = seq![CommandView::OpenTab, CommandView::Navigate(config.profile_url)]
        + poll_commands(polled.len());
    assert(command_of(start) + (issued(transition, start, front) + issued(
        transition,
        reading,
        back,
    )) =~= (command_of(start) + issued(transition, start, front)) + issued(
        transition,
        reading,
        back,
    ));
    assert((prefix + command_of(reading)) + issued(transition, reading, back) =~= prefix + (
    command_of(reading) + issued(transition, reading, back)));
}

/// A profile tab that is at the profile page at none of the reads that its
/// budget allows ends the workflow in `NavigationTimeout`: nothing is read
/// from the page, whatever the driver would have said next.
pub proof fn law_profile_times_out(
    config: PortalConfigView,
    polled: Seq<Seq<char>>,
    rest: Seq<ReplyView>,
)
    requires
        never_arrives(polled, config.profile_url, config.profile_retries),
    ensures
        profile_run(
            config,
            seq![ReplyView::Done, ReplyView::Done] + poll_script(polled) + rest,
        ) == StepView::<ProfileStateView, ProfileDataView>::Finished(
            Err(PortalError::NavigationTimeout),
        ),
        profile_commands(
            config,
            seq![ReplyView::Done, ReplyView::Done] + poll_script(polled) + rest,
        ) == seq![CommandView::OpenTab, CommandView::Navigate(config.profile_url)]
            + poll_commands(polled.len()),
{
    let transition = profile_transition(config);
    let start = profile_start(config);
    let front = seq![ReplyView::Done, ReplyView::Done] + poll_script(polled);
    let stopped = StepView::<ProfileStateView, ProfileDataView>::Finished(
        Err(PortalError::NavigationTimeout),
    );
    lemma_polled_out(polled, config.profile_url, config.profile_retries);
    lemma_profile_polling(config, polled);
    lemma_resume_concat(transition, start, front, rest);
    lemma_finished_stays(transition, stopped, rest);
    let prefix = seq![CommandView::OpenTab, CommandView::Navigate(config.profile_url)]
        + poll_commands(polled.len());
    assert(command_of(start) + (issued(transition, start, front) + Seq::<CommandView>::empty())
        =~= command_of(start) + issued(transition, start, front));
    assert(prefix + Seq::<CommandView>::empty() =~= prefix);
}

/// The fields of a profile are the last cells of the table's rows: a row
/// with cells gives exactly the text of its last cell, a row without cells
/// gives nothing, and the fields stand in the order of their rows.
pub proof fn law_fields_are_last_cells(
    config: PortalConfigView,
    polled: Seq<Seq<char>>,
    image: Option<Seq<char>>,
    address: Seq<char>,
    table: Table,
)
    requires
        arrives(polled, config.profile_url, config.profile_retries),
    ensures
        match profile_run(config, profile_script(polled, image, address, table)) {
            StepView::Finished(Ok(data)) => data.student_info == last_cells(table),
            StepView::Finished(Err(error)) => error == PortalError::EmptyResult && last_cells(
                table,
            ).len() == 0,
            StepView::Continue { .. } => false,
        },
{
    law_profile_outcome(config, polled, image, address, table);
}

/// An image without a `src` attribute is no error: the profile's image
/// address is then the empty text, and the workflow ends as it would with
/// any other image.
pub proof fn law_missing_image_source_is_empty(
    config: PortalConfigView,
    polled: Seq<Seq<char>>,
    address: Seq<char>,
    table: Table,
)
    requires
        arrives(polled, config.profile_url, config.profile_retries),
        last_cells(table).len() > 0,
    ensures
        profile_run(config, profile_script(polled, None, address, table)) == StepView::<
            ProfileStateView,
            ProfileDataView,
        >::Finished(
            Ok(
                ProfileDataView {
                    profile_img: Seq::empty(),
                    address,
                    student_info: last_cells(table),
                },
            ),
        ),
{
    law_profile_outcome(config, polled, None, address, table);
}

/// The step `step` is no profile without fields.
pub open spec fn never_empty(step: StepView<ProfileStateView, ProfileDataView>) -> bool {
    step matches StepView::Finished(Ok(data)) ==> data.student_info.len() > 0
}

/// No reply leads to a profile without fields.
pub proof fn lemma_next_never_empty(
    config: PortalConfigView,
    state: ProfileStateView,
    reply: Option<ReplyView>,
)
    ensures
        never_empty(profile_next(config, state, reply)),
{
}

/// Whatever the driver says, a profile that the workflow ends with has at
/// least one field: an empty reading is an error, never a profile.
pub proof fn law_profile_never_empty(config: PortalConfigView, replies: Seq<ReplyView>)
    ensures
        never_empty(profile_run(config, replies)),
{
    lemma_next_never_empty(config, ProfileStateView::start(), None);
    lemma_resume_never_empty(config, profile_start(config), replies);
}

proof fn lemma_resume_never_empty(
    config: PortalConfigView,
    current: StepView<ProfileStateView, ProfileDataView>,
    replies: Seq<ReplyView>,
)
    requires
        never_empty(current),
    ensures
        never_empty(resume(profile_transition(config), current, replies)),
    decreases replies.len(),
{
    if replies.len() > 0 {
        match current {
            StepView::Finished(_) => {},
            StepView::Continue { state, .. } => {
                lemma_next_never_empty(config, state, Some(replies.first()));
                lemma_resume_never_empty(
                    config,
                    profile_next(config, state, Some(replies.first())),
                    replies.drop_first(),
                );
            },
        }
    }
}

} // verus!
