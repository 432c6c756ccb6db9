//! The summary of a relink run and the status line it writes.

use vstd::prelude::*;

use crate::selection::ItemId;

use crate::text::{
    relink_found_text, relink_found_text_exec, relink_missing_text, relink_missing_text_exec,
    relink_unpacked_text, relink_unpacked_text_exec, Lang,
};

verus! {

/// What one relink run found.
#[derive(Debug, Clone, Copy, PartialEq, Eq, Structural)]
pub struct RelinkReport {
    /// Found, but not where the document said.
    pub moved: usize,
    /// Taken out of the document itself (a packed document).
    pub unpacked: usize,
    /// Looked for in all.
    pub total: usize,
    /// Still not found.
    pub lost: usize,
}

/// The part of the shell state that the status bar shows.
#[derive(Debug, Clone, PartialEq, Eq)]
pub struct ShellState {
    /// The language of the interface.
    pub lang: Lang,
    /// The status-bar text.
    pub status: String,
    /// Show the status as a warning.
    pub status_warn: bool,
}

/// The status line a relink report writes, and whether it is a warning:
/// missing images first, then images taken out of the document, then the
/// count of moved images found.
pub open spec fn relink_status(lang: Lang, report: RelinkReport) -> (Seq<char>, bool) {
    if report.lost > 0 {
        (relink_missing_text(lang, report.lost as nat), true)
    } else if report.unpacked > 0 {
        (relink_unpacked_text(lang, report.unpacked as nat), false)
    } else {
        (relink_found_text(lang, report.moved as nat, report.total as nat), false)
    }
}

/// Writes the summary of a relink run on the status bar.
pub fn write_relink_status(shell: &mut ShellState, report: RelinkReport)
    ensures
        final(shell).lang == old(shell).lang,
        (final(shell).status@, final(shell).status_warn) == relink_status(old(shell).lang, report),
{
    let lang = shell.lang;
    if report.lost > 0 {
        shell.status = relink_missing_text_exec(lang, report.lost as u64);
        shell.status_warn = true;
    } else if report.unpacked > 0 {
        shell.status = relink_unpacked_text_exec(lang, report.unpacked as u64);
        shell.status_warn = false;
    } else {
        shell.status = relink_found_text_exec(lang, report.moved as u64, report.total as u64);
        shell.status_warn = false;
    }
}

/// How the lookup found one image of the document.
#[derive(Debug, Clone, Copy, PartialEq, Eq, Structural)]
pub enum LocateStep {
    /// Where the document said it was.
    WhereItWas,
    /// Stored inside the document itself.
    Embedded,
    /// The file the user pointed at.
    PickedByUser,
    /// Found elsewhere by the search.
    Searched,
}

/// What a relink run does with the lookup's answers.
#[derive(Debug, Clone, PartialEq, Eq)]
pub struct RelinkPlan {
    /// The positions of the images that were found, to be loaded, in order.
    pub to_load: Vec<usize>,
    /// The positions of the images still not found, to be marked missing, in order.
    pub lost: Vec<usize>,
    /// The report kept for the end of the batch, when there is something to say.
    pub report: Option<RelinkReport>,
    /// Report at once: nothing is loaded, so no batch will end.
    pub report_now: bool,
}

/// Images found at another place than the document said (not in place, not unpacked).
pub open spec fn moved_count(found: Seq<Option<LocateStep>>) -> nat
    decreases found.len(),
{
    if found.len() == 0 {
        0
    } else {
        moved_count(found.drop_last()) + match found.last() {
            Some(LocateStep::PickedByUser) | Some(LocateStep::Searched) => 1nat,
            _ => 0nat,
        }
    }
}

/// Images taken out of the document itself.
pub open spec fn unpacked_count(found: Seq<Option<LocateStep>>) -> nat
    decreases found.len(),
{
    if found.len() == 0 {
        0
    } else {
        unpacked_count(found.drop_last()) + if found.last() == Some(LocateStep::Embedded) {
            1nat
        } else {
            0nat
        }
    }
}

/// The positions at which the lookup found an image, or (with `want` false) found none.
pub open spec fn positions(found: Seq<Option<LocateStep>>, want: bool) -> Seq<usize>
    decreases found.len(),
{
    if found.len() == 0 {
        Seq::empty()
    } else {
        let before = positions(found.drop_last(), want);
        if found.last().is_some() == want {
            before.push((found.len() - 1) as usize)
        } else {
            before
        }
    }
}

/// The report of a run: kept only when something moved, was unpacked or is lost.
pub open spec fn relink_report_of(found: Seq<Option<LocateStep>>) -> Option<RelinkReport> {
    let lost = positions(found, false).len();
    let moved = moved_count(found);
    let unpacked = unpacked_count(found);
    if lost > 0 || moved > 0 || unpacked > 0 {
        Some(
            RelinkReport {
                moved: moved as usize,
                unpacked: unpacked as usize,
                total: found.len() as usize,
                lost: lost as usize,
            },
        )
    } else {
        None
    }
}

proof fn lemma_counts_bounded(found: Seq<Option<LocateStep>>)
    ensures
        moved_count(found) + unpacked_count(found) + positions(found, false).len() <= found.len(),
        positions(found, true).len() + positions(found, false).len() == found.len(),
        moved_count(found) + unpacked_count(found) <= positions(found, true).len(),
    decreases found.len(),
{
    if found.len() > 0 {
        lemma_counts_bounded(found.drop_last());
    }
}

/// Every image that was looked for is either loaded or marked missing, and the
/// report's counts never exceed what was looked for.
pub proof fn law_every_wanted_image_is_handled(found: Seq<Option<LocateStep>>)
    requires
        found.len() <= usize::MAX,
    ensures
        positions(found, true).len() + positions(found, false).len() == found.len(),
        moved_count(found) + unpacked_count(found) + positions(found, false).len() <= found.len(),
        forall|k: int|
            0 <= k < positions(found, true).len() ==> (#[trigger] found[
                positions(found, true)[k] as int
            ]).is_some(),
        forall|k: int|
            0 <= k < positions(found, false).len() ==> (#[trigger] found[
                positions(found, false)[k] as int
            ]).is_none(),
{
    lemma_counts_bounded(found);
    lemma_positions_in(found, true);
    lemma_positions_in(found, false);
}

proof fn lemma_positions_in(found: Seq<Option<LocateStep>>, want: bool)
    requires
        found.len() <= usize::MAX,
    ensures
        forall|k: int|
            0 <= k < positions(found, want).len() ==> {
                &&& #[trigger] positions(found, want)[k] < found.len()
                &&& found[positions(found, want)[k] as int].is_some() == want
            },
    decreases found.len(),
{
    if found.len() > 0 {
        let before = found.drop_last();
        lemma_positions_in(before, want);
        assert forall|k: int| 0 <= k < positions(found, want).len() implies {
            &&& #[trigger] positions(found, want)[k] < found.len()
            &&& found[positions(found, want)[k] as int].is_some() == want
        } by {
            if k < positions(before, want).len() {
                assert(positions(found, want)[k] == positions(before, want)[k]);
                assert(found[positions(found, want)[k] as int] == before[positions(
                    before,
                    want,
                )[k] as int]);
            } else {
                assert(found.last().is_some() == want);
                assert(positions(found, want)[k] == (found.len() - 1) as usize);
            }
        }
    }
}

/// One more answer of the lookup adds one to exactly the count it belongs
/// to: a missing image to the lost ones, an image found elsewhere (by the
/// search or by the user) to the moved ones, an image taken out of the
/// document to the unpacked ones; an image where it was adds to none.
pub proof fn law_each_answer_counts_once(found: Seq<Option<LocateStep>>, a: Option<LocateStep>)
    requires
        found.len() < usize::MAX,
    ensures
        ({
            let more = found.push(a);
            &&& positions(more, false).len() == positions(found, false).len() + (if a is None {
                1int
            } else {
                0int
            })
            &&& positions(more, true).len() == positions(found, true).len() + (if a is Some {
                1int
            } else {
                0int
            })
            &&& unpacked_count(more) == unpacked_count(found) + (if a == Some(LocateStep::Embedded) {
                1int
            } else {
                0int
            })
            &&& moved_count(more) == moved_count(found) + (if a == Some(LocateStep::Searched) || a
                == Some(LocateStep::PickedByUser) {
                1int
            } else {
                0int
            })
        }),
{
    assert(found.push(a).drop_last() =~= found);
}

/// A run reports exactly when something moved, was unpacked from the
/// document or is lost, and the report carries those counts and the total;
/// a run where every image was where the document said reports nothing.
pub proof fn law_report_exactly_when_there_is_news(found: Seq<Option<LocateStep>>)
    requires
        found.len() <= usize::MAX,
    ensures
        relink_report_of(found) is Some <==> (moved_count(found) > 0 || unpacked_count(found) > 0
            || positions(found, false).len() > 0),
        relink_report_of(found) matches Some(r) ==> r.moved == moved_count(found) && r.unpacked
            == unpacked_count(found) && r.lost == positions(found, false).len() && r.total
            == found.len(),
{
    lemma_counts_bounded(found);
}

/// A packed document opened where none of its files are: every image is
/// taken out of the document, and the run reports them all as unpacked.
pub proof fn law_all_unpacked_is_reported(found: Seq<Option<LocateStep>>)
    requires
        0 < found.len() <= usize::MAX,
        forall|i: int| 0 <= i < found.len() ==> #[trigger] found[i] == Some(LocateStep::Embedded),
    ensures
        relink_report_of(found) == Some(
            RelinkReport { moved: 0, unpacked: found.len() as usize, total: found.len() as usize, lost: 0 },
        ),
    decreases found.len(),
{
    lemma_counts_bounded(found);
    if found.len() > 1 {
        let before = found.drop_last();
        assert forall|i: int| 0 <= i < before.len() implies #[trigger] before[i] == Some(
            LocateStep::Embedded,
        ) by {
            assert(before[i] == found[i]);
        }
        law_all_unpacked_is_reported(before);
    } else {
        assert(found.drop_last() =~= Seq::<Option<LocateStep>>::empty());
    }
}

/// Sorts the lookup's answers (one per wanted image, in z-order; `None` where
/// nothing was found): which images to load, which to mark missing, the report
/// for the end of the batch, and whether to report at once.
pub fn plan_relink(found: &Vec<Option<LocateStep>>) -> (plan: RelinkPlan)
    ensures
        plan.to_load@ == positions(found@, true),
        plan.lost@ == positions(found@, false),
        plan.report == relink_report_of(found@),
        plan.report_now == (plan.to_load.len() == 0),
{
    let mut to_load: Vec<usize> = Vec::new();
    let mut lost: Vec<usize> = Vec::new();
    let mut moved: usize = 0;
    let mut unpacked: usize = 0;
    let n: usize = found.len();
    let mut i: usize = 0;
    while i < n
        invariant
            n == found.len(),
            i <= n,
            to_load@ == positions(found@.take(i as int), true),
            lost@ == positions(found@.take(i as int), false),
            moved == moved_count(found@.take(i as int)),
            unpacked == unpacked_count(found@.take(i as int)),
        decreases n - i,
    {
        proof {
            assert(found@.take(i + 1).drop_last() =~= found@.take(i as int));
            lemma_counts_bounded(found@.take(i as int));
        }
        match found[i] {
            None => {
                lost.push(i);
            },
            Some(step) => {
                to_load.push(i);
                match step {
                    LocateStep::WhereItWas => {},
                    LocateStep::Embedded => {
                        unpacked = unpacked + 1;
                    },
                    _ => {
                        moved = moved + 1;
                    },
                }
            },
        }
        i = i + 1;
    }
    proof {
        assert(found@.take(n as int) =~= found@);
    }
    let lost_count = lost.len();
    let report = if lost_count > 0 || moved > 0 || unpacked > 0 {
        Some(RelinkReport { moved, unpacked, total: n, lost: lost_count })
    } else {
        None
    };
    let report_now = to_load.len() == 0;
    RelinkPlan { to_load, lost, report, report_now }
}

/// The images still missing on the board, in z-order, other than `chosen`.
/// `board` lists every item in z-order with whether it is missing.
pub open spec fn missing_except(board: Seq<(ItemId, bool)>, chosen: ItemId) -> Seq<ItemId>
    decreases board.len(),
{
    if board.len() == 0 {
        Seq::empty()
    } else {
        let before = missing_except(board.drop_last(), chosen);
        let (id, missing) = board.last();
        if missing && id != chosen {
            before.push(id)
        } else {
            before
        }
    }
}

/// The images to match in the folder the user pointed into: every missing
/// one except the one the user chose by hand.
pub fn still_missing(board: &Vec<(ItemId, bool)>, chosen: ItemId) -> (ids: Vec<ItemId>)
    ensures
        ids@ == missing_except(board@, chosen),
{
    let mut ids: Vec<ItemId> = Vec::new();
    let mut i: usize = 0;
    while i < board.len()
        invariant
            i <= board@.len(),
            ids@ == missing_except(board@.take(i as int), chosen),
        decreases board@.len() - i,
    {
        let (id, missing) = board[i];
        proof {
            assert(board@.take(i + 1).drop_last() == board@.take(i as int));
        }
        if missing && id != chosen {
            ids.push(id);
        }
        i = i + 1;
    }
    proof {
        assert(board@.take(board@.len() as int) == board@);
    }
    ids
}

/// How the folder match found `id`: the step of its first hit, or `None`.
pub open spec fn first_hit(matched: Seq<(ItemId, LocateStep)>, id: ItemId) -> Option<LocateStep>
    decreases matched.len(),
{
    if matched.len() == 0 {
        None
    } else if matched[0].0 == id {
        Some(matched[0].1)
    } else {
        first_hit(matched.drop_first(), id)
    }
}

fn find_hit(matched: &Vec<(ItemId, LocateStep)>, id: ItemId) -> (r: Option<LocateStep>)
    ensures
        r == first_hit(matched@, id),
{
    let mut i: usize = 0;
    proof {
        assert(matched@.skip(0) == matched@);
    }
    while i < matched.len()
        invariant
            i <= matched@.len(),
            first_hit(matched@, id) == first_hit(matched@.skip(i as int), id),
        decreases matched@.len() - i,
    {
        let (hit, step) = matched[i];
        proof {
            assert(matched@.skip(i as int).drop_first() == matched@.skip(i + 1));
        }
        if hit == id {
            return Some(step);
        }
        i = i + 1;
    }
    None
}

/// The answers of a folder match, in the order the relink run handles them:
/// the image the user pointed at first, bound where the user said whatever
/// its content; then each other missing image with its first hit, if any.
pub open spec fn folder_answers(
    chosen: Option<ItemId>,
    missing: Seq<ItemId>,
    matched: Seq<(ItemId, LocateStep)>,
) -> Seq<(ItemId, Option<LocateStep>)> {
    let head = match chosen {
        Some(c) => seq![(c, Some(LocateStep::PickedByUser))],
        None => Seq::empty(),
    };
    head + missing.map_values(|id: ItemId| (id, first_hit(matched, id)))
}

/// Puts together the answers of a folder match (see [`folder_answers`]).
pub fn folder_match_answers(
    chosen: Option<ItemId>,
    missing: &Vec<ItemId>,
    matched: &Vec<(ItemId, LocateStep)>,
) -> (out: Vec<(ItemId, Option<LocateStep>)>)
    ensures
        out@ == folder_answers(chosen, missing@, matched@),
{
    let mut out: Vec<(ItemId, Option<LocateStep>)> = Vec::new();
    let ghost head: Seq<(ItemId, Option<LocateStep>)> = match chosen {
        Some(c) => seq![(c, Some(LocateStep::PickedByUser))],
        None => Seq::empty(),
    };
    match chosen {
        Some(c) => out.push((c, Some(LocateStep::PickedByUser))),
        None => {},
    }
    let mut i: usize = 0;
    while i < missing.len()
        invariant
            i <= missing@.len(),
            head == (match chosen {
                Some(c) => seq![(c, Some(LocateStep::PickedByUser))],
                None => Seq::<(ItemId, Option<LocateStep>)>::empty(),
            }),
            out@ == head + missing@.take(i as int).map_values(
                |id: ItemId| (id, first_hit(matched@, id)),
            ),
        decreases missing@.len() - i,
    {
        let id = missing[i];
        let hit = find_hit(matched, id);
        out.push((id, hit));
        proof {
            assert(missing@.take(i + 1).map_values(|id: ItemId| (id, first_hit(matched@, id)))
                == missing@.take(i as int).map_values(|id: ItemId| (id, first_hit(matched@, id))).push(
                (id, hit),
            ));
        }
        i = i + 1;
    }
    proof {
        assert(missing@.take(missing@.len() as int) == missing@);
    }
    out
}

/// The image the user pointed at is always bound where the user said,
/// ahead of every guess; every other missing image gets exactly one answer,
/// in board order, and the chosen one is never among them.
pub proof fn law_the_chosen_image_is_bound_as_told(
    board: Seq<(ItemId, bool)>,
    chosen: ItemId,
    matched: Seq<(ItemId, LocateStep)>,
)
    ensures
        folder_answers(Some(chosen), missing_except(board, chosen), matched)[0] == (
            chosen,
            Some(LocateStep::PickedByUser),
        ),
        folder_answers(Some(chosen), missing_except(board, chosen), matched).len() == 1
            + missing_except(board, chosen).len(),
        forall|k: int|
            0 <= k < missing_except(board, chosen).len() ==> (#[trigger] folder_answers(
                Some(chosen),
                missing_except(board, chosen),
                matched,
            )[k + 1]).0 == missing_except(board, chosen)[k],
        !missing_except(board, chosen).contains(chosen),
    decreases board.len(),
{
    if board.len() > 0 {
        law_the_chosen_image_is_bound_as_told(board.drop_last(), chosen, matched);
        let before = missing_except(board.drop_last(), chosen);
        if missing_except(board, chosen).contains(chosen) {
            let w = choose|j: int|
                0 <= j < missing_except(board, chosen).len() && missing_except(board, chosen)[j]
                    == chosen;
            if w < before.len() {
                assert(before[w] == chosen);
            }
        }
    }
}

} // verus!
