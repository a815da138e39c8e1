use crate::names::VIDEO_MINIMIZE_ON_FOCUS_LOSS;
use vstd::prelude::*;
use vstd::string::*;

verus! {

/// Precedence of a hint value, ordered from weakest to strongest.
#[derive(Clone, Copy, Debug, PartialEq, Eq, Structural)]
pub enum Hint {
    Default,
    Normal,
    Override,
}

impl Hint {
    /// The rank of a priority: `Default` < `Normal` < `Override`.
    pub open spec fn level(self) -> nat {
        match self {
            Hint::Default => 0,
            Hint::Normal => 1,
            Hint::Override => 2,
        }
    }

    /// The ordinal that the native hint API uses for this priority.
    pub fn ordinal(&self) -> (r: i32)
        ensures
            r as int == self.level(),
    {
        match *self {
            Hint::Default => 0,
            Hint::Normal => 1,
            Hint::Override => 2,
        }
    }
}


/// The abstract content of a hint store: each set name maps to its value and
/// the priority it was written with.
pub type HintMap = Map<Seq<char>, (Seq<char>, Hint)>;

/// Text that the native string transport can carry: no embedded null.
pub open spec fn no_nul(s: Seq<char>) -> bool {
    !s.contains('\0')
}

/// A write at priority `p` replaces the entry at `k` only when `k` is unset
/// or `p` is at least the priority already stored there.
pub open spec fn accepts(m: HintMap, k: Seq<char>, p: Hint) -> bool {
    !m.contains_key(k) || p.level() >= m[k].1.level()
}

/// The store after a write of `v` at `k` with priority `p`.
pub open spec fn after_set(m: HintMap, k: Seq<char>, v: Seq<char>, p: Hint) -> HintMap {
    if accepts(m, k, p) {
        m.insert(k, (v, p))
    } else {
        m
    }
}

/// The value stored at `k`, if any.
pub open spec fn lookup(m: HintMap, k: Seq<char>) -> Option<Seq<char>> {
    if m.contains_key(k) {
        Some(m[k].0)
    } else {
        None
    }
}

/// One stored hint.
struct HintEntry {
    name: String,
    value: String,
    priority: Hint,
}

/// A hint store: names unique, each with a value and a priority.
pub struct HintStore {
    entries: Vec<HintEntry>,
    contents: Ghost<HintMap>,
}

impl View for HintStore {
    type V = HintMap;

    closed spec fn view(&self) -> HintMap {
        self.contents@
    }
}

impl HintStore {
    /// The entries agree with the abstract map, and no name occurs twice.
    pub closed spec fn wf(&self) -> bool {
        &&& forall|i: int|
            0 <= i < self.entries.len() ==> {
                let e = #[trigger] self.entries[i];
                &&& self.contents@.contains_key(e.name@)
                &&& self.contents@[e.name@] == (e.value@, e.priority)
            }
        &&& forall|k: Seq<char>|
            #[trigger] self.contents@.contains_key(k) ==> exists|i: int|
                0 <= i < self.entries.len() && #[trigger] self.entries[i].name@ == k
        &&& forall|i: int, j: int|
            0 <= i < self.entries.len() && 0 <= j < self.entries.len() && i != j
                ==> #[trigger] self.entries[i].name@ != #[trigger] self.entries[j].name@
    }

    /// An empty store: no hint is set.
    pub fn new() -> (r: HintStore)
        ensures
            r.wf(),
            r@ == Map::<Seq<char>, (Seq<char>, Hint)>::empty(),
    {
        HintStore { entries: Vec::new(), contents: Ghost(Map::empty()) }
    }

    /// The index of the entry named `name`, if there is one.
    fn position(&self, name: &String) -> (r: Option<usize>)
        requires
            self.wf(),
        ensures
            match r {
                Some(i) => i < self.entries.len() && self.entries[i as int].name@ == name@,
                None => !self@.contains_key(name@),
            },
    {
        let mut i: usize = 0;
        while i < self.entries.len()
            invariant
                self.wf(),
                i <= self.entries.len(),
                forall|j: int| 0 <= j < i ==> self.entries[j].name@ != name@,
            decreases self.entries.len() - i,
        {
            if self.entries[i].name == *name {
                return Some(i);
            }
            i = i + 1;
        }
        None
    }
}

/// Sets `name` to `value` with the given priority. Returns whether the write
/// was applied; a write is refused when a stronger value is already present.
pub fn set_with_priority(store: &mut HintStore, name: &str, value: &str, priority: &Hint) -> (r: bool)
    requires
        old(store).wf(),
        no_nul(name@),
        no_nul(value@),
    ensures
        final(store).wf(),
        r == accepts(old(store)@, name@, *priority),
        final(store)@ == after_set(old(store)@, name@, value@, *priority),
{
    let key = name.to_owned();
    let entry = HintEntry { name: name.to_owned(), value: value.to_owned(), priority: *priority };
    let ghost before = store.entries@;
    let ghost mut at: int = before.len() as int;
    match store.position(&key) {
        Some(i) => {
            assert(store@[name@] == (before[i as int].value@, before[i as int].priority));
            if priority.ordinal() < store.entries[i].priority.ordinal() {
                return false;
            }
            store.entries.set(i, entry);
            proof {
                at = i as int;
            }
            proof {
                assert forall|j: int| 0 <= j < before.len() && j != i implies before[j].name@ != name@ by {
                    assert(before[j].name@ != before[i as int].name@);
                }
            }
        },
        None => {
            store.entries.push(entry);
            proof {
                assert forall|j: int| 0 <= j < before.len() implies before[j].name@ != name@ by {
                    assert(old(store)@.contains_key(before[j].name@));
                }
            }
        },
    }
    store.contents = Ghost(store.contents@.insert(name@, (value@, *priority)));
    proof {
        let n = store.entries.len() as int;
        assert forall|j: int| 0 <= j < n && j != at implies store.entries[j] == before[j]
            && before[j].name@ != name@ by {}
        assert forall|j: int| 0 <= j < n implies {
            let e = #[trigger] store.entries[j];
            &&& store@.contains_key(e.name@)
            &&& store@[e.name@] == (e.value@, e.priority)
        } by {
            if j != at {
                assert(old(store)@.contains_key(before[j].name@));
            }
        }
        assert forall|j: int, l: int| 0 <= j < n && 0 <= l < n && j != l
            implies #[trigger] store.entries[j].name@ != #[trigger] store.entries[l].name@ by {
            if j != at && l != at {
                assert(before[j].name@ != before[l].name@);
            }
        }
        assert forall|k: Seq<char>| #[trigger] store@.contains_key(k) implies exists|j: int|
            0 <= j < n && #[trigger] store.entries[j].name@ == k by {
            if k == name@ {
                assert(0 <= at < n && store.entries[at].name@ == k);
            } else {
                let w = choose|j: int| 0 <= j < before.len() && #[trigger] before[j].name@ == k;
                assert(store.entries[w].name@ == k);
            }
        }
    }
    true
}

/// Sets `name` to `value` at `Normal` priority. Returns whether the write was
/// applied.
pub fn set(store: &mut HintStore, name: &str, value: &str) -> (r: bool)
    requires
        old(store).wf(),
        no_nul(name@),
        no_nul(value@),
    ensures
        final(store).wf(),
        r == accepts(old(store)@, name@, Hint::Normal),
        final(store)@ == after_set(old(store)@, name@, value@, Hint::Normal),
{
    set_with_priority(store, name, value, &Hint::Normal)
}

/// A copy of the value stored at `name`, or `None` where it is unset.
pub fn get(store: &HintStore, name: &str) -> (r: Option<String>)
    requires
        store.wf(),
        no_nul(name@),
    ensures
        match r {
            Some(s) => lookup(store@, name@) == Some(s@),
            None => lookup(store@, name@) == None::<Seq<char>>,
        },
{
    let key = name.to_owned();
    match store.position(&key) {
        Some(i) => Some(store.entries[i].value.clone()),
        None => None,
    }
}


/// The text a boolean hint is written as: `"1"` or `"0"`.
pub open spec fn flag_text(b: bool) -> Seq<char> {
    if b {
        "1"@
    } else {
        "0"@
    }
}

/// What a boolean hint reads as: `default` where unset, otherwise whether the
/// stored text is exactly `"1"`.
pub open spec fn flag_reading(v: Option<Seq<char>>, default: bool) -> bool {
    match v {
        None => default,
        Some(s) => s == "1"@,
    }
}

/// The value of the focus-loss minimize hint held in `m`; enabled where unset.
pub open spec fn video_minimize_on_focus_loss(m: HintMap) -> bool {
    flag_reading(lookup(m, VIDEO_MINIMIZE_ON_FOCUS_LOSS@), true)
}

/// The key of the focus-loss minimize hint is one the transport can carry.
pub proof fn lemma_video_key_no_nul()
    ensures
        no_nul(VIDEO_MINIMIZE_ON_FOCUS_LOSS@),
{
    reveal_strlit("SDL_VIDEO_MINIMIZE_ON_FOCUS_LOSS");
}

/// The text for a boolean hint value.
pub fn flag_str(value: bool) -> (r: &'static str)
    ensures
        r@ == flag_text(value),
        no_nul(r@),
{
    proof {
        reveal_strlit("1");
        reveal_strlit("0");
    }
    if value {
        "1"
    } else {
        "0"
    }
}

/// Reads a boolean hint from its stored text, falling back to `default`.
pub fn read_flag(value: &Option<String>, default: bool) -> (r: bool)
    ensures
        r == flag_reading(
            match value {
                Some(s) => Some(s@),
                None => None,
            },
            default,
        ),
{
    proof {
        reveal_strlit("1");
    }
    match value {
        None => default,
        Some(s) => {
            let t = s.as_str();
            if t.unicode_len() != 1 {
                return false;
            }
            let c = t.get_char(0);
            assert(c == '1' ==> t@ =~= "1"@);
            c == '1'
        },
    }
}

/// Sets whether a fullscreen window is minimized when it loses key focus, at
/// `Normal` priority. Returns whether the write was applied.
pub fn set_video_minimize_on_focus_loss(store: &mut HintStore, value: bool) -> (r: bool)
    requires
        old(store).wf(),
    ensures
        final(store).wf(),
        r == accepts(old(store)@, VIDEO_MINIMIZE_ON_FOCUS_LOSS@, Hint::Normal),
        final(store)@ == after_set(
            old(store)@,
            VIDEO_MINIMIZE_ON_FOCUS_LOSS@,
            flag_text(value),
            Hint::Normal,
        ),
{
    proof {
        lemma_video_key_no_nul();
    }
    set(store, VIDEO_MINIMIZE_ON_FOCUS_LOSS, flag_str(value))
}

/// Sets whether a fullscreen window is minimized when it loses key focus,
/// with the given priority. Returns whether the write was applied.
pub fn set_video_minimize_on_focus_loss_with_priority(
    store: &mut HintStore,
    value: bool,
    priority: &Hint,
) -> (r: bool)
    requires
        old(store).wf(),
    ensures
        final(store).wf(),
        r == accepts(old(store)@, VIDEO_MINIMIZE_ON_FOCUS_LOSS@, *priority),
        final(store)@ == after_set(
            old(store)@,
            VIDEO_MINIMIZE_ON_FOCUS_LOSS@,
            flag_text(value),
            *priority,
        ),
{
    proof {
        lemma_video_key_no_nul();
    }
    set_with_priority(store, VIDEO_MINIMIZE_ON_FOCUS_LOSS, flag_str(value), priority)
}

/// Whether a fullscreen window is minimized when it loses key focus; `true`
/// while the hint is unset.
pub fn get_video_minimize_on_focus_loss(store: &HintStore) -> (r: bool)
    requires
        store.wf(),
    ensures
        r == video_minimize_on_focus_loss(store@),
{
    proof {
        lemma_video_key_no_nul();
    }
    let value = get(store, VIDEO_MINIMIZE_ON_FOCUS_LOSS);
    read_flag(&value, true)
}

} // verus!
