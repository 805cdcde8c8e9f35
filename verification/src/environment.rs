//! The environment chain: scope frames mapping identifiers to optional
//! values.
//!
//! A binding holding `None` is declared but uninitialized; reading it is a
//! runtime error, distinct from an absent binding. Frames are shared
//! (several closures may retain the same enclosing frame) and mutable
//! through any holder, so they live in one arena owned by the interpreter
//! and are named by index. A frame's enclosing frame always has a smaller
//! index, so chains never cycle; frame 0 is the globals scope and encloses
//! nothing.

use vstd::prelude::*;
use crate::value::{Value, ValueV};
use crate::error::RuntimeError;
use crate::token::{bytes_equal, clone_bytes};

verus! {

/// One name-to-value binding. `value` is `None` while the variable is
/// declared but not yet initialized.
pub struct Binding {
    pub name: Vec<u8>,
    pub value: Option<Value>,
}

/// Mathematical image of a `Binding`.
#[verifier::ext_equal]
pub ghost struct BindingV {
    pub name: Seq<u8>,
    pub value: Option<ValueV>,
}

impl View for Binding {
    type V = BindingV;

    open spec fn view(&self) -> BindingV {
        BindingV { name: self.name@, value: opt_value_view(self.value) }
    }
}

/// The image of an optional value.
pub open spec fn opt_value_view(v: Option<Value>) -> Option<ValueV> {
    match v {
        Some(x) => Some(x@),
        None => None,
    }
}

/// One scope frame: its bindings and the index of the enclosing frame.
pub struct Frame {
    pub enclosing: Option<usize>,
    pub entries: Vec<Binding>,
}

/// Mathematical image of a `Frame`.
#[verifier::ext_equal]
pub ghost struct FrameV {
    pub enclosing: Option<usize>,
    pub entries: Seq<BindingV>,
}

impl View for Frame {
    type V = FrameV;

    open spec fn view(&self) -> FrameV {
        FrameV {
            enclosing: self.enclosing,
            entries: Seq::new(self.entries@.len(), |i: int| self.entries@[i]@),
        }
    }
}

/// The arena of scope frames; frame 0 is the globals scope.
pub struct Environment {
    pub frames: Vec<Frame>,
}

impl View for Environment {
    type V = Seq<FrameV>;

    open spec fn view(&self) -> Seq<FrameV> {
        Seq::new(self.frames@.len(), |i: int| self.frames@[i]@)
    }
}

/// The index of the binding of `name` in a frame, or -1: the binding
/// written last wins.
pub open spec fn frame_index(entries: Seq<BindingV>, name: Seq<u8>) -> int
    decreases entries.len(),
{
    if entries.len() == 0 {
        -1
    } else if entries.last().name == name {
        entries.len() - 1
    } else {
        frame_index(entries.drop_last(), name)
    }
}

/// `frame_index` finds the last binding of `name`, and -1 exactly when
/// there is none.
pub proof fn lemma_frame_index(entries: Seq<BindingV>, name: Seq<u8>)
    ensures
        -1 <= frame_index(entries, name) < entries.len(),
        frame_index(entries, name) >= 0 ==> entries[frame_index(entries, name)].name == name,
        forall|j: int|
            frame_index(entries, name) < j < entries.len() ==> entries[j].name != name,
    decreases entries.len(),
{
    if entries.len() > 0 && entries.last().name != name {
        lemma_frame_index(entries.drop_last(), name);
        assert(forall|j: int|
            0 <= j < entries.len() - 1 ==> entries[j] == entries.drop_last()[j]);
    }
}

/// What a frame holds under `name`: `None` if unbound, `Some(None)` if
/// declared but uninitialized, `Some(Some(v))` if initialized to `v`.
pub open spec fn frame_find(entries: Seq<BindingV>, name: Seq<u8>) -> Option<Option<ValueV>> {
    if frame_index(entries, name) >= 0 {
        Some(entries[frame_index(entries, name)].value)
    } else {
        None
    }
}

/// The frame after binding `name` to `value`: an existing binding is
/// replaced, otherwise one is appended.
pub open spec fn frame_define(entries: Seq<BindingV>, name: Seq<u8>, value: Option<ValueV>)
    -> Seq<BindingV> {
    let b = BindingV { name, value };
    if frame_index(entries, name) >= 0 {
        entries.update(frame_index(entries, name), b)
    } else {
        entries.push(b)
    }
}

/// Well-formedness of the arena: there is a globals frame, it encloses
/// nothing, and every other frame's enclosing frame has a smaller index.
pub open spec fn env_wf(frames: Seq<FrameV>) -> bool {
    &&& frames.len() >= 1
    &&& frames[0].enclosing is None
    &&& forall|i: int|
        0 <= i < frames.len() ==> match #[trigger] frames[i].enclosing {
            Some(p) => p < i,
            None => true,
        }
}

/// What the chain rooted at frame `env` holds under `name`, searching
/// outward.
pub open spec fn env_lookup(frames: Seq<FrameV>, env: int, name: Seq<u8>)
    -> Option<Option<ValueV>>
    decreases env,
{
    if 0 <= env < frames.len() {
        match frame_find(frames[env].entries, name) {
            Some(v) => Some(v),
            None => match frames[env].enclosing {
                Some(p) => if p < env {
                    env_lookup(frames, p as int, name)
                } else {
                    None
                },
                None => None,
            },
        }
    } else {
        None
    }
}

/// The arena after assigning `value` to the nearest binding of `name` in
/// the chain rooted at `env`; `None` if no frame of the chain binds it.
pub open spec fn env_assign(frames: Seq<FrameV>, env: int, name: Seq<u8>, value: ValueV)
    -> Option<Seq<FrameV>>
    decreases env,
{
    if 0 <= env < frames.len() {
        if frame_index(frames[env].entries, name) >= 0 {
            Some(
                frames.update(
                    env,
                    FrameV {
                        enclosing: frames[env].enclosing,
                        entries: frame_define(frames[env].entries, name, Some(value)),
                    },
                ),
            )
        } else {
            match frames[env].enclosing {
                Some(p) => if p < env {
                    env_assign(frames, p as int, name, value)
                } else {
                    None
                },
                None => None,
            }
        }
    } else {
        None
    }
}

/// The frame reached from `env` by climbing `distance` enclosing links, or
/// -1 if the chain is shorter.
pub open spec fn spec_ancestor(frames: Seq<FrameV>, env: int, distance: int) -> int
    decreases distance,
{
    if distance <= 0 {
        env
    } else if 0 <= env < frames.len() {
        match frames[env].enclosing {
            Some(p) => spec_ancestor(frames, p as int, distance - 1),
            None => -1,
        }
    } else {
        -1
    }
}

/// Climbing stays inside the arena and strictly descends the indices.
pub proof fn lemma_ancestor_bounds(frames: Seq<FrameV>, env: int, distance: int)
    requires
        env_wf(frames),
        0 <= env < frames.len(),
    ensures
        -1 <= spec_ancestor(frames, env, distance) <= env,
    decreases distance,
{
    if distance > 0 {
        match frames[env].enclosing {
            Some(p) => {
                lemma_ancestor_bounds(frames, p as int, distance - 1);
            },
            None => {},
        }
    }
}

impl Environment {
    /// A fresh arena holding only the empty globals frame.
    pub fn new() -> (r: Environment)
        ensures
            r@.len() == 1,
            r@[0].enclosing is None,
            r@[0].entries =~= Seq::<BindingV>::empty(),
            env_wf(r@),
    {
        let mut frames: Vec<Frame> = Vec::new();
        frames.push(Frame { enclosing: None, entries: Vec::new() });
        let r = Environment { frames };
        proof {
            assert(r@[0].entries =~= Seq::<BindingV>::empty());
        }
        r
    }

    /// Adds a fresh empty frame whose enclosing frame is `enclosing`, and
    /// returns its index.
    pub fn with_enclosing(&mut self, enclosing: usize) -> (r: usize)
        requires
            enclosing < old(self)@.len(),
        ensures
            r == old(self)@.len(),
            final(self)@ == old(self)@.push(
                FrameV { enclosing: Some(enclosing), entries: Seq::empty() },
            ),
    {
        let r = self.frames.len();
        self.frames.push(Frame { enclosing: Some(enclosing), entries: Vec::new() });
        proof {
            assert(self@ =~~= old(self)@.push(
                FrameV { enclosing: Some(enclosing), entries: Seq::<BindingV>::empty() },
            ));
        }
        r
    }

    /// The index in frame `env`'s entry list of the binding of `name`, if
    /// any, as the executable counterpart of `frame_index`.
    fn find_in_frame(&self, env: usize, name: &Vec<u8>) -> (r: Option<usize>)
        requires
            env < self@.len(),
        ensures
            match r {
                Some(i) => i == frame_index(self@[env as int].entries, name@),
                None => frame_index(self@[env as int].entries, name@) == -1,
            },
    {
        let entries = &self.frames[env].entries;
        let ghost gentries = self@[env as int].entries;
        let mut i: usize = entries.len();
        proof {
            lemma_frame_index(gentries, name@);
        }
        while i > 0
            invariant
                env < self@.len(),
                gentries == self@[env as int].entries,
                i <= entries@.len() == gentries.len(),
                entries == &self.frames@[env as int].entries,
                forall|j: int| i <= j < gentries.len() ==> gentries[j].name != name@,
            decreases i,
        {
            i = i - 1;
            assert(gentries[i as int].name == entries@[i as int]@.name);
            if bytes_equal(entries[i].name.as_slice(), name.as_slice()) {
                proof {
                    lemma_frame_index(gentries, name@);
                    assert(frame_index(gentries, name@) == i) by {
                        if frame_index(gentries, name@) > i {
                            assert(gentries[frame_index(gentries, name@)].name == name@);
                        }
                        if frame_index(gentries, name@) < i {
                            assert(gentries[i as int].name != name@);
                        }
                    }
                }
                return Some(i);
            }
        }
        proof {
            lemma_frame_index(gentries, name@);
            if frame_index(gentries, name@) >= 0 {
                assert(gentries[frame_index(gentries, name@)].name == name@);
            }
        }
        None
    }

    /// Binds `name` to `value` in frame `env` (declaring or redefining it).
    pub fn define(&mut self, env: usize, name: &Vec<u8>, value: Option<Value>)
        requires
            env < old(self)@.len(),
        ensures
            final(self)@ == old(self)@.update(
                env as int,
                FrameV {
                    enclosing: old(self)@[env as int].enclosing,
                    entries: frame_define(
                        old(self)@[env as int].entries,
                        name@,
                        opt_value_view(value),
                    ),
                },
            ),
    {
        let b = Binding { name: clone_bytes(name), value };
        match self.find_in_frame(env, name) {
            Some(i) => {
                proof {
                    lemma_frame_index(self@[env as int].entries, name@);
                }
                self.frames[env].entries[i] = b;
                proof {
                    assert(self@[env as int].entries =~= frame_define(
                        old(self)@[env as int].entries,
                        name@,
                        opt_value_view(value),
                    ));
                    assert(self@ =~~= old(self)@.update(
                        env as int,
                        FrameV {
                            enclosing: old(self)@[env as int].enclosing,
                            entries: frame_define(
                                old(self)@[env as int].entries,
                                name@,
                                opt_value_view(value),
                            ),
                        },
                    ));
                }
            },
            None => {
                self.frames[env].entries.push(b);
                proof {
                    assert(self@[env as int].entries =~= frame_define(
                        old(self)@[env as int].entries,
                        name@,
                        opt_value_view(value),
                    ));
                    assert(self@ =~~= old(self)@.update(
                        env as int,
                        FrameV {
                            enclosing: old(self)@[env as int].enclosing,
                            entries: frame_define(
                                old(self)@[env as int].entries,
                                name@,
                                opt_value_view(value),
                            ),
                        },
                    ));
                }
            },
        }
    }

    /// Reads `name` in the chain rooted at frame `env`: the nearest binding
    /// wins; an uninitialized binding or an unbound name is an error.
    pub fn get(&self, env: usize, name: &Vec<u8>) -> (r: Result<Value, RuntimeError>)
        requires
            env_wf(self@),
            env < self@.len(),
        ensures
            match r {
                Ok(v) => env_lookup(self@, env as int, name@) == Some(Some(v@)),
                Err(e) => match e@ {
                    crate::error::RuntimeErrorV::Uninitialized(n) => n == name@ && env_lookup(
                        self@,
                        env as int,
                        name@,
                    ) == Some(None::<ValueV>),
                    crate::error::RuntimeErrorV::Undefined(n) => n == name@ && env_lookup(
                        self@,
                        env as int,
                        name@,
                    ) is None,
                    _ => false,
                },
            },
    {
        let mut cur: usize = env;
        loop
            invariant
                env_wf(self@),
                cur < self@.len(),
                env_lookup(self@, env as int, name@) == env_lookup(self@, cur as int, name@),
            decreases cur,
        {
            match self.find_in_frame(cur, name) {
                Some(i) => {
                    proof {
                        lemma_frame_index(self@[cur as int].entries, name@);
                    }
                    match &self.frames[cur].entries[i].value {
                        Some(v) => {
                            return Ok(v.duplicate());
                        },
                        None => {
                            return Err(RuntimeError::Uninitialized(clone_bytes(name)));
                        },
                    }
                },
                None => {
                    match self.frames[cur].enclosing {
                        Some(p) => {
                            cur = p;
                        },
                        None => {
                            return Err(RuntimeError::Undefined(clone_bytes(name)));
                        },
                    }
                },
            }
        }
    }

    /// Assigns `value` to the nearest binding of `name` in the chain rooted
    /// at frame `env`; an unbound name is an error. Returns the assigned
    /// value.
    pub fn assign(&mut self, env: usize, name: &Vec<u8>, value: Value) -> (r: Result<
        Value,
        RuntimeError,
    >)
        requires
            env_wf(old(self)@),
            env < old(self)@.len(),
        ensures
            match r {
                Ok(v) => v@ == value@ && env_assign(old(self)@, env as int, name@, value@)
                    == Some(final(self)@),
                Err(e) => final(self)@ == old(self)@ && env_assign(
                    old(self)@,
                    env as int,
                    name@,
                    value@,
                ) is None && (e@ matches crate::error::RuntimeErrorV::Undefined(n) && n == name@),
            },
            env_wf(final(self)@),
            final(self)@.len() == old(self)@.len(),
    {
        let mut cur: usize = env;
        loop
            invariant
                env_wf(self@),
                cur < self@.len(),
                self@ == old(self)@,
                env_assign(self@, env as int, name@, value@) == env_assign(
                    self@,
                    cur as int,
                    name@,
                    value@,
                ),
            decreases cur,
        {
            match self.find_in_frame(cur, name) {
                Some(i) => {
                    proof {
                        lemma_frame_index(self@[cur as int].entries, name@);
                    }
                    let dup = value.duplicate();
                    let b = Binding { name: clone_bytes(name), value: Some(value) };
                    self.frames[cur].entries[i] = b;
                    proof {
                        assert(self@[cur as int].entries =~= frame_define(
                            old(self)@[cur as int].entries,
                            name@,
                            Some(dup@),
                        ));
                        assert(self@ =~~= old(self)@.update(
                            cur as int,
                            FrameV {
                                enclosing: old(self)@[cur as int].enclosing,
                                entries: frame_define(
                                    old(self)@[cur as int].entries,
                                    name@,
                                    Some(dup@),
                                ),
                            },
                        ));
                        assert(env_wf(self@)) by {
                            assert(forall|k: int|
                                0 <= k < self@.len() ==> self@[k].enclosing == old(
                                    self,
                                )@[k].enclosing);
                        }
                    }
                    return Ok(dup);
                },
                None => {
                    match self.frames[cur].enclosing {
                        Some(p) => {
                            cur = p;
                        },
                        None => {
                            return Err(RuntimeError::Undefined(clone_bytes(name)));
                        },
                    }
                },
            }
        }
    }

    /// The index of the frame `distance` hops out from frame `env`.
    fn ancestor(&self, env: usize, distance: u32) -> (r: Option<usize>)
        requires
            env_wf(self@),
            env < self@.len(),
        ensures
            match r {
                Some(a) => spec_ancestor(self@, env as int, distance as int) == a && a
                    < self@.len(),
                None => spec_ancestor(self@, env as int, distance as int) == -1,
            },
    {
        let mut cur: usize = env;
        let mut left: u32 = distance;
        while left > 0
            invariant
                env_wf(self@),
                cur < self@.len(),
                spec_ancestor(self@, env as int, distance as int) == spec_ancestor(
                    self@,
                    cur as int,
                    left as int,
                ),
            decreases left,
        {
            match self.frames[cur].enclosing {
                Some(p) => {
                    cur = p;
                    left = left - 1;
                },
                None => {
                    return None;
                },
            }
        }
        Some(cur)
    }

    /// Reads `name` exactly in the frame `distance` hops out from `env`,
    /// where the resolver placed it.
    pub fn get_at(&self, env: usize, distance: u32, name: &Vec<u8>) -> (r: Result<
        Value,
        RuntimeError,
    >)
        requires
            env_wf(self@),
            env < self@.len(),
        ensures
            match r {
                Ok(v) => ({
                    let a = spec_ancestor(self@, env as int, distance as int);
                    a >= 0 && frame_find(self@[a].entries, name@) == Some(Some(v@))
                }),
                Err(e) => match e@ {
                    crate::error::RuntimeErrorV::Uninitialized(n) => ({
                        let a = spec_ancestor(self@, env as int, distance as int);
                        n == name@ && a >= 0 && frame_find(self@[a].entries, name@) == Some(
                            None::<ValueV>,
                        )
                    }),
                    crate::error::RuntimeErrorV::Undefined(n) => ({
                        let a = spec_ancestor(self@, env as int, distance as int);
                        n == name@ && (a == -1 || frame_find(self@[a].entries, name@) is None)
                    }),
                    _ => false,
                },
            },
    {
        match self.ancestor(env, distance) {
            Some(a) => {
                match self.find_in_frame(a, name) {
                    Some(i) => {
                        proof {
                            lemma_frame_index(self@[a as int].entries, name@);
                        }
                        match &self.frames[a].entries[i].value {
                            Some(v) => Ok(v.duplicate()),
                            None => Err(RuntimeError::Uninitialized(clone_bytes(name))),
                        }
                    },
                    None => Err(RuntimeError::Undefined(clone_bytes(name))),
                }
            },
            None => Err(RuntimeError::Undefined(clone_bytes(name))),
        }
    }

    /// Assigns `value` to `name` exactly in the frame `distance` hops out
    /// from `env`; returns the assigned value.
    pub fn assign_at(&mut self, env: usize, distance: u32, name: &Vec<u8>, value: Value)
        -> (r: Result<Value, RuntimeError>)
        requires
            env_wf(old(self)@),
            env < old(self)@.len(),
        ensures
            match r {
                Ok(v) => ({
                    let a = spec_ancestor(old(self)@, env as int, distance as int);
                    &&& v@ == value@
                    &&& a >= 0
                    &&& frame_index(old(self)@[a].entries, name@) >= 0
                    &&& final(self)@ == old(self)@.update(
                        a,
                        FrameV {
                            enclosing: old(self)@[a].enclosing,
                            entries: frame_define(old(self)@[a].entries, name@, Some(value@)),
                        },
                    )
                }),
                Err(e) => ({
                    let a = spec_ancestor(old(self)@, env as int, distance as int);
                    &&& final(self)@ == old(self)@
                    &&& (e@ matches crate::error::RuntimeErrorV::Undefined(n) && n == name@)
                    &&& (a == -1 || frame_index(old(self)@[a].entries, name@) == -1)
                }),
            },
            env_wf(final(self)@),
            final(self)@.len() == old(self)@.len(),
    {
        match self.ancestor(env, distance) {
            Some(a) => {
                match self.find_in_frame(a, name) {
                    Some(i) => {
                        proof {
                            lemma_frame_index(self@[a as int].entries, name@);
                        }
                        let dup = value.duplicate();
                        let b = Binding { name: clone_bytes(name), value: Some(value) };
                        self.frames[a].entries[i] = b;
                        proof {
                            assert(self@[a as int].entries =~= frame_define(
                                old(self)@[a as int].entries,
                                name@,
                                Some(dup@),
                            ));
                            assert(self@ =~~= old(self)@.update(
                                a as int,
                                FrameV {
                                    enclosing: old(self)@[a as int].enclosing,
                                    entries: frame_define(
                                        old(self)@[a as int].entries,
                                        name@,
                                        Some(dup@),
                                    ),
                                },
                            ));
                            assert(env_wf(self@)) by {
                                assert(forall|k: int|
                                    0 <= k < self@.len() ==> self@[k].enclosing == old(
                                        self,
                                    )@[k].enclosing);
                            }
                        }
                        Ok(dup)
                    },
                    None => Err(RuntimeError::Undefined(clone_bytes(name))),
                }
            },
            None => Err(RuntimeError::Undefined(clone_bytes(name))),
        }
    }
}

} // verus!
