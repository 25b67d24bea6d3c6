//! Script editing commands, with serialize-on-revert.
//!
//! A script is stored on the undo side only as its serialized bytes: undo
//! takes the script off the node and keeps the blob; redo decodes the blob
//! back into a script. The codec here is verified both ways, so the script
//! that redo attaches has exactly the serialized form of the one undo
//! removed, even though it is a different object.
//!
//! Invalid state transitions are surfaced as typed errors rather than
//! aborting: on an error nothing is changed.

use vstd::prelude::*;

use crate::equiv::node_obs_eq;
use crate::equiv::opt_script_obs_eq;
use crate::equiv::lemma_slot_eq_obs;
use crate::equiv::slots_obs_eq;
use crate::handle::Handle;
use crate::node::Node;
use crate::node::Script;
use crate::node::with_script;
use crate::pool::Slot;
use crate::pool::occupy_one;
use crate::pool::slot_live;
use crate::pool::slot_payload;
use crate::scene::SceneContext;

verus! {

/// What went wrong in a script command.
///
/// These conditions mean the command history and the graph have diverged
/// (a transition from the wrong state, a node that lost its script) or the
/// stored blob is malformed; the command reports them without touching any
/// state, so the caller can abort the operation cleanly.
#[derive(Clone, Copy, PartialEq, Eq, Structural, Debug)]
pub enum CommandError {
    /// `execute` or `revert` was called in a state that does not allow it.
    InvalidState,
    /// The node has no script attached where one is required.
    NoScript,
    /// The stored byte blob does not decode to a script.
    MalformedScriptData,
}

/// The serialized form of a script: its type tag followed by its state.
pub open spec fn encoded_script(sc: Script) -> Seq<u8> {
    seq![sc.kind] + sc.payload@
}

/// A blob that decodes to a script: at least the type tag.
pub open spec fn script_blob_well_formed(b: Seq<u8>) -> bool {
    b.len() >= 1
}

/// The serialized form of an optional script: a presence byte, then the
/// script's form if present.
pub open spec fn encoded_opt_script(s: Option<Script>) -> Seq<u8> {
    match s {
        Option::None => seq![0u8],
        Option::Some(sc) => seq![1u8] + encoded_script(sc),
    }
}

/// A blob that decodes to an optional script.
pub open spec fn opt_blob_well_formed(b: Seq<u8>) -> bool {
    &&& b.len() >= 1
    &&& (b[0] == 0 || b[0] == 1)
    &&& (b[0] == 0 ==> b.len() == 1)
    &&& (b[0] == 1 ==> b.len() >= 2)
}

/// Serializes a script to bytes.
pub fn serialize_script(sc: &Script) -> (r: Vec<u8>)
    ensures
        r@ == encoded_script(*sc),
{
    let mut out: Vec<u8> = Vec::new();
    out.push(sc.kind);
    let n = sc.payload.len();
    let mut i: usize = 0;
    while i < n
        invariant
            n == sc.payload@.len(),
            0 <= i <= n,
            out@ == seq![sc.kind] + sc.payload@.take(i as int),
        decreases n - i,
    {
        out.push(sc.payload[i]);
        proof {
            assert(out@ =~= seq![sc.kind] + sc.payload@.take(i + 1));
        }
        i = i + 1;
    }
    proof {
        assert(sc.payload@.take(n as int) =~= sc.payload@);
    }
    out
}

/// Decodes a script from bytes; exact: decoding succeeds on precisely the
/// well-formed blobs, and re-encoding the result gives back the input.
pub fn deserialize_script(b: &Vec<u8>) -> (r: Result<Script, CommandError>)
    ensures
        r is Ok <==> script_blob_well_formed(b@),
        r matches Ok(sc) ==> encoded_script(sc) == b@,
        r is Err ==> r == Err::<Script, CommandError>(CommandError::MalformedScriptData),
{
    if b.len() == 0 {
        return Err(CommandError::MalformedScriptData);
    }
    let kind = b[0];
    let n = b.len();
    let mut payload: Vec<u8> = Vec::new();
    let mut i: usize = 1;
    while i < n
        invariant
            n == b@.len(),
            1 <= i <= n,
            payload@ == b@.subrange(1, i as int),
        decreases n - i,
    {
        payload.push(b[i]);
        proof {
            assert(payload@ =~= b@.subrange(1, i + 1));
        }
        i = i + 1;
    }
    let sc = Script { kind, payload };
    proof {
        assert(encoded_script(sc) =~= b@);
    }
    Ok(sc)
}

/// Serializes an optional script to bytes.
pub fn serialize_opt_script(s: &Option<Script>) -> (r: Vec<u8>)
    ensures
        r@ == encoded_opt_script(*s),
{
    match s {
        None => {
            let mut out: Vec<u8> = Vec::new();
            out.push(0);
            proof {
                assert(out@ =~= seq![0u8]);
            }
            out
        },
        Some(sc) => {
            let mut out: Vec<u8> = Vec::new();
            out.push(1);
            let encoded = serialize_script(sc);
            let n = encoded.len();
            let mut i: usize = 0;
            while i < n
                invariant
                    n == encoded@.len(),
                    0 <= i <= n,
                    out@ == seq![1u8] + encoded@.take(i as int),
                decreases n - i,
            {
                out.push(encoded[i]);
                proof {
                    assert(out@ =~= seq![1u8] + encoded@.take(i + 1));
                }
                i = i + 1;
            }
            proof {
                assert(encoded@.take(n as int) =~= encoded@);
            }
            out
        },
    }
}

/// Decodes an optional script from bytes; exact in the same sense as
/// `deserialize_script`.
pub fn deserialize_opt_script(b: &Vec<u8>) -> (r: Result<Option<Script>, CommandError>)
    ensures
        r is Ok <==> opt_blob_well_formed(b@),
        r matches Ok(s) ==> encoded_opt_script(s) == b@,
        r is Err ==> r == Err::<Option<Script>, CommandError>(CommandError::MalformedScriptData),
{
    if b.len() == 0 {
        return Err(CommandError::MalformedScriptData);
    }
    let tag = b[0];
    if tag == 0 {
        if b.len() == 1 {
            proof {
                assert(encoded_opt_script(None::<Script>) =~= b@);
            }
            Ok(None)
        } else {
            Err(CommandError::MalformedScriptData)
        }
    } else if tag == 1 {
        if b.len() >= 2 {
            let kind = b[1];
            let n = b.len();
            let mut payload: Vec<u8> = Vec::new();
            let mut i: usize = 2;
            while i < n
                invariant
                    n == b@.len(),
                    2 <= i <= n,
                    payload@ == b@.subrange(2, i as int),
                decreases n - i,
            {
                payload.push(b[i]);
                proof {
                    assert(payload@ =~= b@.subrange(2, i + 1));
                }
                i = i + 1;
            }
            let sc = Script { kind, payload };
            proof {
                assert(encoded_opt_script(Some(sc)) =~= b@);
            }
            Ok(Some(sc))
        } else {
            Err(CommandError::MalformedScriptData)
        }
    } else {
        Err(CommandError::MalformedScriptData)
    }
}

/// Two optional scripts with the same serialized form are observably the
/// same script: the encoding loses nothing.
pub proof fn lemma_encoded_opt_script_injective(a: Option<Script>, b: Option<Script>)
    requires
        encoded_opt_script(a) == encoded_opt_script(b),
    ensures
        opt_script_obs_eq(a, b),
{
    let ea = encoded_opt_script(a);
    let eb = encoded_opt_script(b);
    match (a, b) {
        (Option::None, Option::None) => {},
        (Option::Some(x), Option::Some(y)) => {
            assert(ea[1] == x.kind);
            assert(eb[1] == y.kind);
            assert(x.payload@ =~= ea.subrange(2, ea.len() as int)) by {
                assert(ea.len() == 2 + x.payload@.len());
                assert forall|i: int| 0 <= i < x.payload@.len() implies x.payload@[i] == ea[2
                    + i] by {}
            }
            assert(y.payload@ =~= eb.subrange(2, eb.len() as int)) by {
                assert(eb.len() == 2 + y.payload@.len());
                assert forall|i: int| 0 <= i < y.payload@.len() implies y.payload@[i] == eb[2
                    + i] by {}
            }
        },
        (Option::None, Option::Some(y)) => {
            assert(ea.len() == 1);
            assert(eb.len() >= 2);
        },
        (Option::Some(x), Option::None) => {
            assert(ea.len() >= 2);
            assert(eb.len() == 1);
        },
    }
}

/// Two scripts with the same serialized form are observably the same
/// script.
pub proof fn lemma_encoded_script_injective(a: Script, b: Script)
    requires
        encoded_script(a) == encoded_script(b),
    ensures
        crate::equiv::script_obs_eq(a, b),
{
    let ea = encoded_script(a);
    let eb = encoded_script(b);
    assert(ea[0] == a.kind);
    assert(eb[0] == b.kind);
    assert(a.payload@ =~= ea.subrange(1, ea.len() as int)) by {
        assert(ea.len() == 1 + a.payload@.len());
        assert forall|i: int| 0 <= i < a.payload@.len() implies a.payload@[i] == ea[1 + i] by {}
    }
    assert(b.payload@ =~= eb.subrange(1, eb.len() as int)) by {
        assert(eb.len() == 1 + b.payload@.len());
        assert forall|i: int| 0 <= i < b.payload@.len() implies b.payload@[i] == eb[1 + i] by {}
    }
}

/// The serialized form of any optional script is well formed, so decoding
/// what `revert` stored always succeeds.
pub proof fn lemma_encoded_opt_script_well_formed(s: Option<Script>)
    ensures
        opt_blob_well_formed(encoded_opt_script(s)),
{
}

/// The states of `SetScriptCommand`.
///
/// `Undefined` exists only transiently while the state is being replaced;
/// it is never observed at rest, and a transition finding it reports an
/// invalid state instead of proceeding.
#[derive(Debug)]
pub enum SetScriptCommandState {
    Undefined,
    NonExecuted { script: Option<Script> },
    Executed,
    Reverted { data: Vec<u8> },
}

/// Attaches a script (or clears one); undo serializes the displaced state
/// so no live script object is held across the undo boundary.
#[derive(Debug)]
pub struct SetScriptCommand {
    pub handle: Handle,
    pub state: SetScriptCommandState,
}

impl SetScriptCommand {
    /// Captures the node and the script to attach.
    pub fn new(handle: Handle, script: Option<Script>) -> (c: SetScriptCommand)
        ensures
            c.handle == handle,
            c.state == (SetScriptCommandState::NonExecuted { script }),
    {
        SetScriptCommand { handle, state: SetScriptCommandState::NonExecuted { script } }
    }

    /// The display label of this command.
    pub fn name(&self, _context: &SceneContext) -> (r: String)
        ensures
            r@ == "Set Script Command"@,
    {
        "Set Script Command".to_owned()
    }

    /// From `NonExecuted`: moves the held script onto the node. From
    /// `Reverted`: decodes the stored blob and attaches the result. Any
    /// other state is an invalid transition and changes nothing.
    pub fn execute(&mut self, context: &mut SceneContext) -> (r: Result<(), CommandError>)
        requires
            slot_live(old(context).scene.graph@, old(self).handle),
        ensures
            r is Ok <==> (old(self).state is NonExecuted || (old(self).state matches
                SetScriptCommandState::Reverted { data } && opt_blob_well_formed(data@))),
            old(self).state matches SetScriptCommandState::NonExecuted { script } ==> ({
                &&& final(self).state is Executed
                &&& final(self).handle == old(self).handle
                &&& final(context).scene.graph@ == occupy_one(
                    old(context).scene.graph@,
                    old(self).handle,
                    with_script(
                        slot_payload(old(context).scene.graph@, old(self).handle),
                        script,
                    ),
                )
            }),
            r is Ok && old(self).state is Reverted ==> ({
                let attached = slot_payload(
                    final(context).scene.graph@,
                    old(self).handle,
                ).base.script;
                &&& final(self).state is Executed
                &&& final(self).handle == old(self).handle
                &&& final(context).scene.graph@ == occupy_one(
                    old(context).scene.graph@,
                    old(self).handle,
                    with_script(
                        slot_payload(old(context).scene.graph@, old(self).handle),
                        attached,
                    ),
                )
                &&& encoded_opt_script(attached) == old(self).state->Reverted_data@
            }),
            r is Err ==> *final(self) == *old(self) && final(context).scene.graph@ == old(
                context,
            ).scene.graph@,
            final(context).scene.graph.root_spec() == old(context).scene.graph.root_spec(),
            final(context).scene.animations == old(context).scene.animations,
    {
        let is_non_executed = match &self.state {
            SetScriptCommandState::NonExecuted { .. } => true,
            _ => false,
        };
        if is_non_executed {
            let mut st = SetScriptCommandState::Executed;
            std::mem::swap(&mut self.state, &mut st);
            let script = match st {
                SetScriptCommandState::NonExecuted { script } => script,
                _ => vstd::pervasive::unreached(),
            };
            let _ = context.scene.graph.replace_script(self.handle, script);
            return Ok(());
        }
        let decoded = match &self.state {
            SetScriptCommandState::Reverted { data } => deserialize_opt_script(data),
            _ => {
                return Err(CommandError::InvalidState);
            },
        };
        match decoded {
            Ok(script) => {
                self.state = SetScriptCommandState::Executed;
                let _ = context.scene.graph.replace_script(self.handle, script);
                Ok(())
            },
            Err(e) => Err(e),
        }
    }

    /// From `Executed` only: takes the script off the node and keeps its
    /// serialized form. Any other state is an invalid transition and
    /// changes nothing.
    pub fn revert(&mut self, context: &mut SceneContext) -> (r: Result<(), CommandError>)
        requires
            slot_live(old(context).scene.graph@, old(self).handle),
        ensures
            r is Ok <==> old(self).state is Executed,
            old(self).state is Executed ==> ({
                &&& final(self).handle == old(self).handle
                &&& final(self).state matches SetScriptCommandState::Reverted { data }
                    && data@ == encoded_opt_script(
                    slot_payload(old(context).scene.graph@, old(self).handle).base.script,
                )
                &&& final(context).scene.graph@ == occupy_one(
                    old(context).scene.graph@,
                    old(self).handle,
                    with_script(
                        slot_payload(old(context).scene.graph@, old(self).handle),
                        None,
                    ),
                )
            }),
            r is Err ==> *final(self) == *old(self) && final(context).scene.graph@ == old(
                context,
            ).scene.graph@ && r == Err::<(), CommandError>(CommandError::InvalidState),
            final(context).scene.graph.root_spec() == old(context).scene.graph.root_spec(),
            final(context).scene.animations == old(context).scene.animations,
    {
        let is_executed = match &self.state {
            SetScriptCommandState::Executed => true,
            _ => false,
        };
        if !is_executed {
            return Err(CommandError::InvalidState);
        }
        let prior = context.scene.graph.replace_script(self.handle, None);
        let data = serialize_opt_script(&prior);
        self.state = SetScriptCommandState::Reverted { data };
        Ok(())
    }
}

/// Starting from `NonExecuted` with script `s`, the sequence execute,
/// revert, execute leaves on the node a script with the same serialized
/// form as `s` — observably the same script, though a different object —
/// and leaves the whole pool state observably as after the first execute.
pub proof fn lemma_set_script_execute_revert_execute(
    g: Seq<Slot<Node>>,
    h: Handle,
    s: Option<Script>,
    s2: Option<Script>,
)
    requires
        slot_live(g, h),
        encoded_opt_script(s2) == encoded_opt_script(s),
    ensures
        ({
            let g1 = occupy_one(g, h, with_script(slot_payload(g, h), s));
            let g2 = occupy_one(g1, h, with_script(slot_payload(g1, h), None));
            let g3 = occupy_one(g2, h, with_script(slot_payload(g2, h), s2));
            opt_script_obs_eq(s2, s) && slots_obs_eq(g3, g1)
        }),
{
    let n0 = slot_payload(g, h);
    let g1 = occupy_one(g, h, with_script(n0, s));
    let g2 = occupy_one(g1, h, with_script(slot_payload(g1, h), None));
    let g3 = occupy_one(g2, h, with_script(slot_payload(g2, h), s2));
    lemma_encoded_opt_script_injective(s2, s);
    assert(slot_payload(g1, h) == with_script(n0, s));
    assert(slot_payload(g2, h) == with_script(n0, None));
    assert(slot_payload(g3, h) == with_script(n0, s2));
    assert forall|i: int| 0 <= i < g3.len() implies crate::equiv::slot_obs_eq(g3[i], g1[i]) by {
        if i == h.index as int {
            assert(node_obs_eq(with_script(n0, s2), with_script(n0, s)));
        } else {
            lemma_slot_eq_obs(g3[i], g1[i]);
        }
    }
}

/// Swap-style command exchanging the serialized state of the node's
/// attached script: each run decodes the stored target blob, replaces the
/// node's script object with the result, and keeps the displaced blob.
/// The node must already have a script attached.
#[derive(Debug)]
pub struct ScriptDataBlobCommand {
    pub handle: Handle,
    pub old_value: Vec<u8>,
    pub new_value: Vec<u8>,
}

impl ScriptDataBlobCommand {
    /// Captures the node and the old and new serialized script states.
    pub fn new(handle: Handle, old_value: Vec<u8>, new_value: Vec<u8>) -> (c:
        ScriptDataBlobCommand)
        ensures
            c.handle == handle,
            c.old_value == old_value,
            c.new_value == new_value,
    {
        ScriptDataBlobCommand { handle, old_value, new_value }
    }

    /// Decodes the target blob, attaches the result, and exchanges the
    /// held blobs so the next call swaps back.
    fn swap(&mut self, context: &mut SceneContext) -> (r: Result<(), CommandError>)
        requires
            slot_live(old(context).scene.graph@, old(self).handle),
        ensures
            r is Ok <==> (slot_payload(old(context).scene.graph@, old(self).handle).base.script
                is Some && script_blob_well_formed(old(self).new_value@)),
            r is Ok ==> ({
                let attached = slot_payload(
                    final(context).scene.graph@,
                    old(self).handle,
                ).base.script;
                &&& final(self).handle == old(self).handle
                &&& final(self).old_value == old(self).new_value
                &&& final(self).new_value == old(self).old_value
                &&& attached matches Some(sc) && encoded_script(sc) == old(self).new_value@
                &&& final(context).scene.graph@ == occupy_one(
                    old(context).scene.graph@,
                    old(self).handle,
                    with_script(
                        slot_payload(old(context).scene.graph@, old(self).handle),
                        attached,
                    ),
                )
            }),
            r is Err ==> *final(self) == *old(self) && final(context).scene.graph@ == old(
                context,
            ).scene.graph@,
            r is Err && !(slot_payload(old(context).scene.graph@, old(self).handle).base.script
                is Some) ==> r == Err::<(), CommandError>(CommandError::NoScript),
            r is Err && slot_payload(old(context).scene.graph@, old(self).handle).base.script
                is Some ==> r == Err::<(), CommandError>(CommandError::MalformedScriptData),
            final(context).scene.graph.root_spec() == old(context).scene.graph.root_spec(),
            final(context).scene.animations == old(context).scene.animations,
    {
        let has_script = context.scene.graph.node(self.handle).base.script.is_some();
        if !has_script {
            return Err(CommandError::NoScript);
        }
        match deserialize_script(&self.new_value) {
            Err(e) => Err(e),
            Ok(script) => {
                std::mem::swap(&mut self.old_value, &mut self.new_value);
                let _ = context.scene.graph.replace_script(self.handle, Some(script));
                Ok(())
            },
        }
    }

    /// The display label of this command.
    pub fn name(&self, _context: &SceneContext) -> (r: String)
        ensures
            r@ == "Change Script Property"@,
    {
        "Change Script Property".to_owned()
    }

    /// Applies the target blob and remembers the displaced one.
    pub fn execute(&mut self, context: &mut SceneContext) -> (r: Result<(), CommandError>)
        requires
            slot_live(old(context).scene.graph@, old(self).handle),
        ensures
            r is Ok <==> (slot_payload(old(context).scene.graph@, old(self).handle).base.script
                is Some && script_blob_well_formed(old(self).new_value@)),
            r is Ok ==> ({
                let attached = slot_payload(
                    final(context).scene.graph@,
                    old(self).handle,
                ).base.script;
                &&& final(self).handle == old(self).handle
                &&& final(self).old_value == old(self).new_value
                &&& final(self).new_value == old(self).old_value
                &&& attached matches Some(sc) && encoded_script(sc) == old(self).new_value@
                &&& final(context).scene.graph@ == occupy_one(
                    old(context).scene.graph@,
                    old(self).handle,
                    with_script(
                        slot_payload(old(context).scene.graph@, old(self).handle),
                        attached,
                    ),
                )
            }),
            r is Err ==> *final(self) == *old(self) && final(context).scene.graph@ == old(
                context,
            ).scene.graph@,
            final(context).scene.graph.root_spec() == old(context).scene.graph.root_spec(),
            final(context).scene.animations == old(context).scene.animations,
    {
        self.swap(context)
    }

    /// Identical to `execute`: the blob swap makes it symmetric.
    pub fn revert(&mut self, context: &mut SceneContext) -> (r: Result<(), CommandError>)
        requires
            slot_live(old(context).scene.graph@, old(self).handle),
        ensures
            r is Ok <==> (slot_payload(old(context).scene.graph@, old(self).handle).base.script
                is Some && script_blob_well_formed(old(self).new_value@)),
            r is Ok ==> ({
                let attached = slot_payload(
                    final(context).scene.graph@,
                    old(self).handle,
                ).base.script;
                &&& final(self).handle == old(self).handle
                &&& final(self).old_value == old(self).new_value
                &&& final(self).new_value == old(self).old_value
                &&& attached matches Some(sc) && encoded_script(sc) == old(self).new_value@
                &&& final(context).scene.graph@ == occupy_one(
                    old(context).scene.graph@,
                    old(self).handle,
                    with_script(
                        slot_payload(old(context).scene.graph@, old(self).handle),
                        attached,
                    ),
                )
            }),
            r is Err ==> *final(self) == *old(self) && final(context).scene.graph@ == old(
                context,
            ).scene.graph@,
            final(context).scene.graph.root_spec() == old(context).scene.graph.root_spec(),
            final(context).scene.animations == old(context).scene.animations,
    {
        self.swap(context)
    }
}


/// Swapping the script blob and swapping back leaves the node's script,
/// and every other slot, observably as before: the blob the command holds
/// afterwards is the one it started with, and re-attaching it restores a
/// script with the original's serialized form.
pub proof fn lemma_script_blob_execute_revert(
    g: Seq<Slot<Node>>,
    h: Handle,
    s0: Script,
    s1: Script,
    s2: Script,
)
    requires
        slot_live(g, h),
        slot_payload(g, h).base.script == Some(s0),
        encoded_script(s2) == encoded_script(s0),
    ensures
        ({
            let g1 = occupy_one(g, h, with_script(slot_payload(g, h), Some(s1)));
            let g2 = occupy_one(g1, h, with_script(slot_payload(g1, h), Some(s2)));
            slots_obs_eq(g2, g)
        }),
{
    let n0 = slot_payload(g, h);
    let g1 = occupy_one(g, h, with_script(n0, Some(s1)));
    let g2 = occupy_one(g1, h, with_script(slot_payload(g1, h), Some(s2)));
    lemma_encoded_script_injective(s2, s0);
    assert(slot_payload(g1, h) == with_script(n0, Some(s1)));
    assert(slot_payload(g2, h) == with_script(n0, Some(s2)));
    assert forall|i: int| 0 <= i < g2.len() implies crate::equiv::slot_obs_eq(g2[i], g[i]) by {
        if i == h.index as int {
            assert(node_obs_eq(with_script(n0, Some(s2)), n0));
        } else {
            lemma_slot_eq_obs(g2[i], g[i]);
        }
    }
}

} // verus!
