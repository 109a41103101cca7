use vstd::prelude::*;
use crate::key::Key;
use vstd::std_specs::convert::FromSpec;

verus! {

/// Everything a key press can ask of the editor.
#[derive(Clone, Copy, Debug, PartialEq, Eq, Hash, Structural)]
pub enum Action {
    // available in every widget
    Quit,
    SwitchToLogWidget,
    SwitchToPreviousWidget,
    SelectDown,
    SelectUp,
    Enter,
    // widget switching
    SwitchToDirListWidget,
    // log viewer
    LogToggleHideSelector,
    LogToggleFocus,
    LogSelectPreviousTarget,
    LogSelectNextTarget,
    LogReduceShown,
    LogIncreaseShown,
    LogDecreaseCapture,
    LogIncreaseCapture,
    LogPageUp,
    LogPageDown,
    LogExitPageMode,
    LogToggleHideTargets,
    // metadata editor
    SaveTagsToFile,
}

/// The keys bound to each action.
pub open spec fn action_keys(a: Action) -> Seq<Key> {
    match a {
        Action::Quit => seq![Key::Ctrl('c'), Key::Char('q')],
        Action::LogToggleHideSelector => seq![Key::Char('h')],
        Action::LogToggleFocus => seq![Key::Char('f')],
        Action::LogSelectPreviousTarget => seq![Key::Up],
        Action::LogSelectNextTarget => seq![Key::Down],
        Action::LogReduceShown => seq![Key::Left],
        Action::LogIncreaseShown => seq![Key::Right],
        Action::LogIncreaseCapture => seq![Key::Char('+')],
        Action::LogDecreaseCapture => seq![Key::Char('-')],
        Action::LogPageUp => seq![Key::PageUp],
        Action::LogPageDown => seq![Key::PageDown],
        Action::LogExitPageMode => seq![Key::Esc],
        Action::LogToggleHideTargets => seq![Key::Char(' ')],
        Action::SwitchToLogWidget => seq![Key::Ctrl('l')],
        Action::SwitchToPreviousWidget => seq![Key::Esc],
        Action::SelectDown => seq![Key::Char('j')],
        Action::SelectUp => seq![Key::Char('k')],
        Action::Enter => seq![Key::Enter],
        Action::SaveTagsToFile => seq![Key::Char('s')],
        Action::SwitchToDirListWidget => seq![Key::Char('d')],
    }
}

/// The name under which an action is shown.
pub open spec fn action_name(a: Action) -> Seq<char> {
    match a {
        Action::Quit => "Quit"@,
        Action::LogToggleHideSelector => "LogToggleHideSelector"@,
        Action::LogToggleFocus => "LogToggleFocus"@,
        Action::LogSelectPreviousTarget => "LogSelectPreviousTarget"@,
        Action::LogSelectNextTarget => "LogSelectNextTarget"@,
        Action::LogReduceShown => "LogReduceShown"@,
        Action::LogIncreaseShown => "LogIncreaseShown"@,
        Action::LogIncreaseCapture => "LogIncreaseCaptured"@,
        Action::LogDecreaseCapture => "LogReduceCaptured"@,
        Action::LogPageUp => "LogPageUp"@,
        Action::LogPageDown => "LogPageDown"@,
        Action::LogExitPageMode => "LogExitPageMode"@,
        Action::LogToggleHideTargets => "LogToggleHideTargets"@,
        Action::SwitchToLogWidget => "SwitchToLogWidget"@,
        Action::SwitchToPreviousWidget => "SwitchToPreviousWidget"@,
        Action::SelectDown => "SelectDown"@,
        Action::SelectUp => "SelectUp"@,
        Action::Enter => "EnterKey"@,
        Action::SaveTagsToFile => "SaveTagsToFile"@,
        Action::SwitchToDirListWidget => "SwitchToDirListWidget"@,
    }
}

pub open spec fn binds(a: Action, k: Key) -> bool {
    action_keys(a).contains(k)
}

/// The first action of `acts`, in order, that is bound to `k`.
pub open spec fn first_bound(acts: Seq<Action>, k: Key) -> Option<Action>
    decreases acts.len(),
{
    if acts.len() == 0 {
        None
    } else if binds(acts[0], k) {
        Some(acts[0])
    } else {
        first_bound(acts.drop_first(), k)
    }
}

/// The actions of `acts`, in order, that are bound to `k`.
pub open spec fn bound_to(acts: Seq<Action>, k: Key) -> Seq<Action>
    decreases acts.len(),
{
    if acts.len() == 0 {
        Seq::empty()
    } else if binds(acts.last(), k) {
        bound_to(acts.drop_last(), k).push(acts.last())
    } else {
        bound_to(acts.drop_last(), k)
    }
}

/// `found` lists each key that two or more of `acts` share exactly once, each with the
/// actions bound to it in order, and nothing else.
pub open spec fn reports_conflicts(acts: Seq<Action>, found: Seq<(Key, Seq<Action>)>) -> bool {
    &&& forall|i: int| 0 <= i < found.len() ==> {
        &&& #[trigger] found[i].1 == bound_to(acts, found[i].0)
        &&& found[i].1.len() > 1
    }
    &&& forall|i: int, j: int| 0 <= i < j < found.len() ==> found[i].0 != found[j].0
    &&& forall|k: Key| #[trigger] bound_to(acts, k).len() > 1 ==> exists|i: int|
        0 <= i < found.len() && found[i].0 == k
}

proof fn lemma_bound_has_binder(acts: Seq<Action>, k: Key)
    requires
        bound_to(acts, k).len() > 0,
    ensures
        exists|i: int| 0 <= i < acts.len() && #[trigger] binds(acts[i], k),
    decreases acts.len(),
{
    if binds(acts.last(), k) {
        assert(binds(acts[acts.len() - 1], k));
    } else {
        lemma_bound_has_binder(acts.drop_last(), k);
        let i = choose|i: int| 0 <= i < acts.drop_last().len() && #[trigger] binds(acts.drop_last()[i], k);
        assert(binds(acts[i], k));
    }
}

proof fn lemma_bound_of_pair(a: Action, b: Action, k: Key)
    ensures
        bound_to(seq![a, b], k) == (if binds(a, k) { seq![a] } else { Seq::<Action>::empty() }) + (
        if binds(b, k) { seq![b] } else { Seq::<Action>::empty() }),
{
    let s = seq![a, b];
    assert(s.drop_last() =~= seq![a]);
    assert(seq![a].drop_last() =~= Seq::<Action>::empty());
    assert(bound_to(seq![a], k) == (if binds(a, k) { seq![a] } else { Seq::<Action>::empty() })) by {
        assert(seq![a].last() == a);
        assert(bound_to(Seq::<Action>::empty(), k) == Seq::<Action>::empty());
        if binds(a, k) {
            assert(Seq::<Action>::empty().push(a) =~= seq![a]);
        }
    }
    if binds(b, k) {
        if binds(a, k) {
            assert(seq![a].push(b) =~= seq![a] + seq![b]);
        } else {
            assert(Seq::<Action>::empty().push(b) =~= Seq::<Action>::empty() + seq![b]);
        }
    } else {
        if binds(a, k) {
            assert(seq![a] =~= seq![a] + Seq::<Action>::empty());
        } else {
            assert(Seq::<Action>::empty() =~= Seq::<Action>::empty() + Seq::<Action>::empty());
        }
    }
}

/// Two actions that share exactly one key give exactly one conflict, on that key and
/// naming both in order, and that key resolves to the one registered first.
pub proof fn lemma_one_shared_key(a: Action, b: Action, k: Key, found: Seq<(Key, Seq<Action>)>)
    requires
        binds(a, k),
        binds(b, k),
        forall|k2: Key| binds(a, k2) && binds(b, k2) ==> k2 == k,
        reports_conflicts(seq![a, b], found),
    ensures
        found.len() == 1,
        found[0].0 == k,
        found[0].1 == seq![a, b],
        first_bound(seq![a, b], k) == Some(a),
{
    let s = seq![a, b];
    lemma_bound_of_pair(a, b, k);
    assert(bound_to(s, k) =~= seq![a, b]);
    assert(bound_to(s, k).len() > 1);
    let i = choose|i: int| 0 <= i < found.len() && found[i].0 == k;
    assert forall|j: int| 0 <= j < found.len() implies found[j].0 == k by {
        let kj = found[j].0;
        assert(found[j].1 == bound_to(s, kj));
        lemma_bound_of_pair(a, b, kj);
        assert(binds(a, kj) && binds(b, kj));
    }
    if found.len() > 1 {
        assert(found[0].0 != found[1].0);
        assert(false);
    }
    assert(found[0].1 == bound_to(s, found[0].0));
}

impl Action {
    /// The keys bound to this action.
    pub fn keys(&self) -> (r: Vec<Key>)
        ensures
            r@ == action_keys(*self),
    {
        let r = match self {
            Action::Quit => vec![Key::Ctrl('c'), Key::Char('q')],
            Action::LogToggleHideSelector => vec![Key::Char('h')],
            Action::LogToggleFocus => vec![Key::Char('f')],
            Action::LogSelectPreviousTarget => vec![Key::Up],
            Action::LogSelectNextTarget => vec![Key::Down],
            Action::LogReduceShown => vec![Key::Left],
            Action::LogIncreaseShown => vec![Key::Right],
            Action::LogIncreaseCapture => vec![Key::Char('+')],
            Action::LogDecreaseCapture => vec![Key::Char('-')],
            Action::LogPageUp => vec![Key::PageUp],
            Action::LogPageDown => vec![Key::PageDown],
            Action::LogExitPageMode => vec![Key::Esc],
            Action::LogToggleHideTargets => vec![Key::Char(' ')],
            Action::SwitchToLogWidget => vec![Key::Ctrl('l')],
            Action::SwitchToPreviousWidget => vec![Key::Esc],
            Action::SelectDown => vec![Key::Char('j')],
            Action::SelectUp => vec![Key::Char('k')],
            Action::Enter => vec![Key::Enter],
            Action::SaveTagsToFile => vec![Key::Char('s')],
            Action::SwitchToDirListWidget => vec![Key::Char('d')],
        };
        proof {
            assert(r@ =~= action_keys(*self));
        }
        r
    }

    /// A short list of actions, kept for callers that walked it.
    pub fn iterator() -> (r: Vec<Action>)
        ensures
            r@ == seq![Action::Quit, Action::LogToggleHideSelector],
    {
        let r = vec![Action::Quit, Action::LogToggleHideSelector];
        proof {
            assert(r@ =~= seq![Action::Quit, Action::LogToggleHideSelector]);
        }
        r
    }

    /// The name under which this action is shown.
    pub fn name(&self) -> (r: String)
        ensures
            r@ == action_name(*self),
    {
        let s: &str = match self {
            Action::Quit => "Quit",
            Action::LogToggleHideSelector => "LogToggleHideSelector",
            Action::LogToggleFocus => "LogToggleFocus",
            Action::LogSelectPreviousTarget => "LogSelectPreviousTarget",
            Action::LogSelectNextTarget => "LogSelectNextTarget",
            Action::LogReduceShown => "LogReduceShown",
            Action::LogIncreaseShown => "LogIncreaseShown",
            Action::LogIncreaseCapture => "LogIncreaseCaptured",
            Action::LogDecreaseCapture => "LogReduceCaptured",
            Action::LogPageUp => "LogPageUp",
            Action::LogPageDown => "LogPageDown",
            Action::LogExitPageMode => "LogExitPageMode",
            Action::LogToggleHideTargets => "LogToggleHideTargets",
            Action::SwitchToLogWidget => "SwitchToLogWidget",
            Action::SwitchToPreviousWidget => "SwitchToPreviousWidget",
            Action::SelectDown => "SelectDown",
            Action::SelectUp => "SelectUp",
            Action::Enter => "EnterKey",
            Action::SaveTagsToFile => "SaveTagsToFile",
            Action::SwitchToDirListWidget => "SwitchToDirListWidget",
        };
        s.to_owned()
    }

    /// Whether `key` is bound to this action.
    pub fn is_bound_to(&self, key: Key) -> (r: bool)
        ensures
            r == binds(*self, key),
    {
        let keys = self.keys();
        let mut i: usize = 0;
        while i < keys.len()
            invariant
                keys@ == action_keys(*self),
                i <= keys.len(),
                forall|j: int| 0 <= j < i ==> keys@[j] != key,
            decreases keys.len() - i,
        {
            if keys[i] == key {
                return true;
            }
            i += 1;
        }
        false
    }
}

/// A key shared by two or more enabled actions, with those actions in order.
#[derive(Clone, Debug)]
pub struct KeyConflict {
    pub key: Key,
    pub actions: Vec<Action>,
}

pub open spec fn conflicts_view(c: Seq<KeyConflict>) -> Seq<(Key, Seq<Action>)> {
    c.map_values(|e: KeyConflict| (e.key, e.actions@))
}

/// The actions of `acts`, in order, that are bound to `key`.
pub fn actions_bound_to(acts: &Vec<Action>, key: Key) -> (r: Vec<Action>)
    ensures
        r@ == bound_to(acts@, key),
{
    let mut r: Vec<Action> = Vec::new();
    let mut i: usize = 0;
    while i < acts.len()
        invariant
            i <= acts.len(),
            r@ == bound_to(acts@.subrange(0, i as int), key),
        decreases acts.len() - i,
    {
        proof {
            assert(acts@.subrange(0, i + 1).drop_last() =~= acts@.subrange(0, i as int));
        }
        if acts[i].is_bound_to(key) {
            r.push(acts[i]);
        }
        i += 1;
    }
    proof {
        assert(acts@.subrange(0, acts.len() as int) =~= acts@);
    }
    r
}

fn reported(found: &Vec<KeyConflict>, key: Key) -> (r: bool)
    ensures
        r == exists|i: int| 0 <= i < found.len() && (#[trigger] found@[i]).key == key,
{
    let mut i: usize = 0;
    while i < found.len()
        invariant
            i <= found.len(),
            forall|j: int| 0 <= j < i ==> (#[trigger] found@[j]).key != key,
        decreases found.len() - i,
    {
        if found[i].key == key {
            return true;
        }
        i += 1;
    }
    false
}

/// Every key that two or more of `acts` share, each once, with the actions bound to it.
pub fn key_conflicts(acts: &Vec<Action>) -> (r: Vec<KeyConflict>)
    ensures
        reports_conflicts(acts@, conflicts_view(r@)),
{
    let mut found: Vec<KeyConflict> = Vec::new();
    let mut i: usize = 0;
    while i < acts.len()
        invariant
            i <= acts.len(),
            forall|e: int| 0 <= e < found.len() ==> {
                &&& #[trigger] found@[e].actions@ == bound_to(acts@, found@[e].key)
                &&& found@[e].actions@.len() > 1
            },
            forall|e: int, f: int| 0 <= e < f < found.len() ==> found@[e].key != found@[f].key,
            forall|a: int, k: Key| 0 <= a < i && #[trigger] binds(acts@[a], k) && bound_to(acts@, k).len() > 1
                ==> exists|e: int| 0 <= e < found.len() && (#[trigger] found@[e]).key == k,
        decreases acts.len() - i,
    {
        let keys = acts[i].keys();
        let mut j: usize = 0;
        while j < keys.len()
            invariant
                i < acts.len(),
                keys@ == action_keys(acts@[i as int]),
                j <= keys.len(),
                forall|e: int| 0 <= e < found.len() ==> {
                    &&& #[trigger] found@[e].actions@ == bound_to(acts@, found@[e].key)
                    &&& found@[e].actions@.len() > 1
                },
                forall|e: int, f: int| 0 <= e < f < found.len() ==> found@[e].key != found@[f].key,
                forall|a: int, k: Key| 0 <= a < i && #[trigger] binds(acts@[a], k) && bound_to(acts@, k).len() > 1
                    ==> exists|e: int| 0 <= e < found.len() && (#[trigger] found@[e]).key == k,
                forall|m: int| 0 <= m < j && #[trigger] bound_to(acts@, keys@[m]).len() > 1
                    ==> exists|e: int| 0 <= e < found.len() && (#[trigger] found@[e]).key == keys@[m],
            decreases keys.len() - j,
        {
            let k = keys[j];
            if !reported(&found, k) {
                let bound = actions_bound_to(acts, k);
                if bound.len() > 1 {
                    let ghost before = found@;
                    found.push(KeyConflict { key: k, actions: bound });
                    proof {
                        assert(found@[found.len() - 1].key == k);
                        assert forall|a: int, k2: Key| 0 <= a < i && #[trigger] binds(acts@[a], k2) && bound_to(acts@, k2).len() > 1
                            implies exists|e: int| 0 <= e < found.len() && (#[trigger] found@[e]).key == k2 by {
                            let e = choose|e: int| 0 <= e < before.len() && (#[trigger] before[e]).key == k2;
                            assert(found@[e] == before[e]);
                        }
                        assert forall|m: int| 0 <= m < j + 1 && #[trigger] bound_to(acts@, keys@[m]).len() > 1
                            implies exists|e: int| 0 <= e < found.len() && (#[trigger] found@[e]).key == keys@[m] by {
                            if m < j {
                                let e = choose|e: int| 0 <= e < before.len() && (#[trigger] before[e]).key == keys@[m];
                                assert(found@[e] == before[e]);
                            } else {
                                assert(found@[found.len() - 1].key == keys@[m]);
                            }
                        }
                    }
                }
            }
            j += 1;
        }
        proof {
            assert forall|a: int, k: Key| 0 <= a < i + 1 && #[trigger] binds(acts@[a], k) && bound_to(acts@, k).len() > 1
                implies exists|e: int| 0 <= e < found.len() && (#[trigger] found@[e]).key == k by {
                if a == i {
                    let m = choose|m: int| 0 <= m < keys@.len() && keys@[m] == k;
                    assert(bound_to(acts@, keys@[m]).len() > 1);
                }
            }
        }
        i += 1;
    }
    proof {
        let v = conflicts_view(found@);
        assert forall|k: Key| #[trigger] bound_to(acts@, k).len() > 1 implies exists|e: int|
            0 <= e < v.len() && v[e].0 == k by {
            lemma_bound_has_binder(acts@, k);
            let a = choose|a: int| 0 <= a < acts@.len() && #[trigger] binds(acts@[a], k);
            let e = choose|e: int| 0 <= e < found.len() && (#[trigger] found@[e]).key == k;
            assert(v[e].0 == k);
        }
        assert forall|e: int| 0 <= e < v.len() implies {
            &&& #[trigger] v[e].1 == bound_to(acts@, v[e].0)
            &&& v[e].1.len() > 1
        } by {
            assert(found@[e].actions@ == bound_to(acts@, found@[e].key));
        }
        assert forall|e: int, f: int| 0 <= e < f < v.len() implies v[e].0 != v[f].0 by {
            assert(found@[e].key != found@[f].key);
        }
    }
    found
}

/// The help rows of one action: each of its keys, the first one naming the action.
pub open spec fn help_rows_of(a: Action) -> Seq<(Key, Option<Action>)> {
    action_keys(a).map(|i: int, k: Key| (k, if i == 0 { Some(a) } else { None }))
}

/// The help rows of a sequence of actions, in order.
pub open spec fn help_of(acts: Seq<Action>) -> Seq<(Key, Option<Action>)>
    decreases acts.len(),
{
    if acts.len() == 0 {
        Seq::empty()
    } else {
        help_of(acts.drop_last()) + help_rows_of(acts.last())
    }
}

/// The contextual set of enabled actions, in the order they were registered.
#[derive(Clone, Debug)]
pub struct Actions(Vec<Action>);

impl Actions {
    pub closed spec fn enabled(&self) -> Seq<Action> {
        self.0@
    }

    /// Builds the registry and reports every key that two or more of the actions share.
    /// The registry is built whatever the conflicts.
    pub fn build(actions: Vec<Action>) -> (r: (Actions, Vec<KeyConflict>))
        ensures
            r.0.enabled() == actions@,
            reports_conflicts(actions@, conflicts_view(r.1@)),
    {
        let conflicts = key_conflicts(&actions);
        (Actions(actions), conflicts)
    }

    /// The keys that two or more enabled actions share.
    pub fn conflicts(&self) -> (r: Vec<KeyConflict>)
        ensures
            reports_conflicts(self.enabled(), conflicts_view(r@)),
    {
        key_conflicts(&self.0)
    }

    /// The first enabled action, in registration order, bound to `key`.
    pub fn find(&self, key: Key) -> (r: Option<Action>)
        ensures
            r == first_bound(self.enabled(), key),
    {
        let mut i: usize = 0;
        proof {
            assert(self.0@.subrange(0, self.0.len() as int) =~= self.0@);
        }
        while i < self.0.len()
            invariant
                i <= self.0.len(),
                first_bound(self.0@, key) == first_bound(self.0@.subrange(i as int, self.0.len() as int), key),
            decreases self.0.len() - i,
        {
            let ghost rest = self.0@.subrange(i as int, self.0.len() as int);
            proof {
                assert(rest.drop_first() =~= self.0@.subrange(i + 1, self.0.len() as int));
                assert(rest[0] == self.0@[i as int]);
            }
            if self.0[i].is_bound_to(key) {
                return Some(self.0[i]);
            }
            i += 1;
        }
        None
    }

    /// One row per key of each enabled action, in order; the first key of an action
    /// carries the action's name.
    pub fn help_rows(&self) -> (r: Vec<(Key, Option<Action>)>)
        ensures
            r@ == help_of(self.enabled()),
    {
        let mut rows: Vec<(Key, Option<Action>)> = Vec::new();
        let mut i: usize = 0;
        proof {
            assert(self.0@.subrange(0, 0) =~= Seq::<Action>::empty());
        }
        while i < self.0.len()
            invariant
                i <= self.0.len(),
                rows@ == help_of(self.0@.subrange(0, i as int)),
            decreases self.0.len() - i,
        {
            let a = self.0[i];
            let keys = a.keys();
            let ghost before = rows@;
            let mut j: usize = 0;
            while j < keys.len()
                invariant
                    keys@ == action_keys(a),
                    j <= keys.len(),
                    rows@ == before + help_rows_of(a).subrange(0, j as int),
                decreases keys.len() - j,
            {
                let label = if j == 0 {
                    Some(a)
                } else {
                    None
                };
                rows.push((keys[j], label));
                proof {
                    assert(help_rows_of(a).subrange(0, j + 1) =~= help_rows_of(a).subrange(0, j as int).push(
                        help_rows_of(a)[j as int],
                    ));
                }
                j += 1;
            }
            proof {
                assert(help_rows_of(a).subrange(0, keys.len() as int) =~= help_rows_of(a));
                assert(self.0@.subrange(0, i + 1).drop_last() =~= self.0@.subrange(0, i as int));
                assert(self.0@.subrange(0, i + 1).last() == a);
            }
            i += 1;
        }
        proof {
            assert(self.0@.subrange(0, self.0.len() as int) =~= self.0@);
        }
        rows
    }

    /// The enabled actions.
    pub fn actions(&self) -> (r: &[Action])
        ensures
            r@ == self.enabled(),
    {
        self.0.as_slice()
    }
}

impl Default for Actions {
    fn default() -> (r: Actions)
        ensures
            r.enabled() == Seq::<Action>::empty(),
    {
        Actions(Vec::new())
    }
}

impl From<Vec<Action>> for Actions {
    fn from(actions: Vec<Action>) -> (r: Actions) {
        Actions(actions)
    }
}

/// The registry that `From` builds enables exactly the given actions, in order, so
/// its `conflicts` report the keys they share.
pub proof fn lemma_from_keeps_actions(v: Vec<Action>)
    ensures
        <Actions as FromSpec<Vec<Action>>>::obeys_from_spec(),
        <Actions as FromSpec<Vec<Action>>>::from_spec(v).enabled() == v@,
{
}

impl vstd::std_specs::convert::FromSpecImpl<Vec<Action>> for Actions {
    open spec fn obeys_from_spec() -> bool {
        true
    }

    closed spec fn from_spec(v: Vec<Action>) -> Actions {
        Actions(v)
    }
}

} // verus!
