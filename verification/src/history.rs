use crate::text::{chars_of, is_blank, spec_is_blank};
use vstd::prelude::*;
use vstd::string::StringExecFns;

verus! {

/// How many delivered texts the history keeps.
pub const MAX_HISTORY_ITEMS: usize = 50;

/// Within how many milliseconds a press and release of the orb count as a click.
pub const ORB_CLICK_MS: u64 = 200;

/// The texts that were delivered last, newest first.
pub struct History {
    pub items: Vec<String>,
}

/// The views of a sequence of strings.
pub open spec fn spec_texts(items: Seq<String>) -> Seq<Seq<char>> {
    items.map_values(|s: String| s@)
}

/// The history after `text` was delivered: a blank text leaves it as it is; any other goes
/// to the front, and the oldest entry leaves where that makes more than fifty.
pub open spec fn spec_history_add(items: Seq<Seq<char>>, text: Seq<char>) -> Seq<Seq<char>> {
    if spec_is_blank(text) {
        items
    } else if items.len() + 1 > MAX_HISTORY_ITEMS {
        (seq![text] + items).drop_last()
    } else {
        seq![text] + items
    }
}

impl View for History {
    type V = Seq<Seq<char>>;

    open spec fn view(&self) -> Seq<Seq<char>> {
        spec_texts(self.items@)
    }
}

impl History {
    /// The history holds no more entries than it may.
    pub open spec fn wf(&self) -> bool {
        self.items@.len() <= MAX_HISTORY_ITEMS
    }

    /// An empty history.
    pub fn new() -> (r: History)
        ensures
            r.wf(),
            r@ == Seq::<Seq<char>>::empty(),
    {
        let r = History { items: Vec::new() };
        assert(r@ =~= Seq::<Seq<char>>::empty());
        r
    }
}

/// Records a delivered text at the front of the history and says whether the history
/// changed, so that a window showing it can be redrawn.
pub fn add_history_item(history: &mut History, text: &str) -> (changed: bool)
    ensures
        old(history).wf() ==> final(history).wf(),
        final(history)@ == spec_history_add(old(history)@, text@),
        changed == !spec_is_blank(text@),
{
    if is_blank(&chars_of(text)) {
        return false;
    }
    let ghost before = history@;
    history.items.insert(0, String::from_str(text));
    assert(history@ =~= seq![text@] + before);
    if history.items.len() > MAX_HISTORY_ITEMS {
        let ghost grown = history@;
        history.items.pop();
        assert(history@ =~= grown.drop_last());
    }
    true
}

/// A copy of the history, newest entry first.
pub fn get_history_items(history: &History) -> (r: Vec<String>)
    ensures
        spec_texts(r@) == history@,
{
    let mut r: Vec<String> = Vec::new();
    let mut i: usize = 0;
    while i < history.items.len()
        invariant
            i <= history.items.len(),
            r@.len() == i,
            forall|j: int| 0 <= j < i ==> (#[trigger] r@[j])@ == history.items@[j]@,
        decreases history.items.len() - i,
    {
        r.push(history.items[i].clone());
        i += 1;
    }
    assert(spec_texts(r@) =~= history@);
    r
}

/// Forgets every entry.
pub fn clear_history(history: &mut History)
    ensures
        final(history).wf(),
        final(history)@ == Seq::<Seq<char>>::empty(),
{
    history.items.clear();
    assert(history@ =~= Seq::<Seq<char>>::empty());
}

/// What a click on the floating orb asks for.
#[derive(Clone, Copy, Debug, PartialEq, Eq, Structural)]
pub enum OrbCommand {
    ToggleHistory,
}

/// The place for the receiver of orb clicks. It is filled once; `H` is whatever the
/// application sends commands through.
pub struct OrbClickSlot<H> {
    pub handler: Option<H>,
}

impl<H> OrbClickSlot<H> {
    /// A slot with no receiver yet.
    pub fn new() -> (r: OrbClickSlot<H>)
        ensures
            r.handler is None,
    {
        OrbClickSlot { handler: None }
    }
}

/// Installs the receiver of orb clicks. The first receiver stays: a later call changes
/// nothing.
pub fn set_orb_click_handler<H>(slot: &mut OrbClickSlot<H>, tx: H)
    ensures
        old(slot).handler is None ==> final(slot).handler == Some(tx),
        old(slot).handler is Some ==> final(slot).handler == old(slot).handler,
{
    if slot.handler.is_none() {
        slot.handler = Some(tx);
    }
}

/// What a release of the orb means: a click, and with it the command to toggle the history
/// window, if the orb was held for less than a fifth of a second and a receiver is
/// installed; nothing otherwise.
pub fn orb_release_command(installed: bool, pressed_ms: u64, released_ms: u64) -> (r: Option<
    OrbCommand,
>)
    ensures
        r == if installed && released_ms >= pressed_ms && released_ms - pressed_ms < ORB_CLICK_MS {
            Some(OrbCommand::ToggleHistory)
        } else {
            None::<OrbCommand>
        },
{
    if installed && released_ms >= pressed_ms && released_ms - pressed_ms < ORB_CLICK_MS {
        Some(OrbCommand::ToggleHistory)
    } else {
        None
    }
}

/// The tab of the history window that an index stands for: 1 is the clipboard tab, every
/// other number the tab of delivered texts.
pub fn normalize_history_tab(index: usize) -> (r: usize)
    ensures
        r == if index == 1 {
            1usize
        } else {
            0usize
        },
{
    if index == 1 {
        1
    } else {
        0
    }
}

} // verus!
