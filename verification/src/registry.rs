use vstd::prelude::*;

use crate::errors::FatalError;
use crate::memory::GuestMemory;
use crate::program::{EvmData, Program};

verus! {

/// The stack of active programs. The current program is always the last:
/// each nested call pushes a new instance and pops it on return, so the
/// insertion order is the call nesting order. The registry is owned by the
/// execution context that drives the guest and passed along the call chain
/// instead of living in ambient global state.
pub struct ProgramRegistry {
    programs: Vec<Program>,
}

impl View for ProgramRegistry {
    type V = Seq<Program>;

    closed spec fn view(&self) -> Seq<Program> {
        self.programs@
    }
}

impl ProgramRegistry {
    /// Every held instance is well formed.
    pub open spec fn wf(&self) -> bool {
        forall|i: int| 0 <= i < self@.len() ==> self@[i].wf()
    }

    /// An empty registry: no guest call is active yet.
    pub fn new() -> (r: ProgramRegistry)
        ensures
            r@.len() == 0,
            r.wf(),
    {
        ProgramRegistry { programs: Vec::new() }
    }

    /// Appends `program`, making it current. Always succeeds.
    pub fn push(&mut self, program: Program)
        ensures
            final(self)@ == old(self)@.push(program),
            old(self).wf() && program.wf() ==> final(self).wf(),
    {
        self.programs.push(program);
        proof {
            if old(self).wf() && program.wf() {
                assert forall|i: int| 0 <= i < self@.len() implies self@[i].wf() by {
                    if i < old(self)@.len() {
                        assert(old(self)@[i].wf());
                    } else {
                        assert(self@[i] == program);
                    }
                }
            }
        }
    }

    /// Builds a new instance from its creation-time parts — empty output,
    /// fresh idle bridge — and makes it current. Always succeeds.
    pub fn push_new(
        &mut self,
        args: Vec<u8>,
        evm_data: EvmData,
        module: u32,
        config: u64,
        memory: GuestMemory,
    )
        ensures
            final(self)@.len() == old(self)@.len() + 1,
            final(self)@.drop_last() == old(self)@,
            ({
                let p = final(self)@.last();
                &&& p.args == args
                &&& p.outs@.len() == 0
                &&& p.requester@.is_idle()
                &&& p.evm_data == evm_data
                &&& p.module == module
                &&& p.config == config
                &&& p.memory == memory
            }),
            old(self).wf() && memory.wf() ==> final(self).wf(),
    {
        let program = Program::new(args, evm_data, module, config, memory);
        self.programs.push(program);
        proof {
            assert(self.programs@.drop_last() =~= old(self)@);
            if old(self).wf() && program.wf() {
                assert forall|i: int| 0 <= i < self@.len() implies self@[i].wf() by {
                    if i < old(self)@.len() {
                        assert(old(self)@[i].wf());
                    } else {
                        assert(self@[i] == program);
                    }
                }
            }
        }
    }

    /// Removes and discards the current program. Popping an empty registry
    /// is a fatal logic error — a pop without a matching push — never a
    /// recoverable condition.
    pub fn pop(&mut self) -> (r: Result<(), FatalError>)
        ensures
            r is Ok <==> old(self)@.len() > 0,
            old(self)@.len() > 0 ==> final(self)@ == old(self)@.drop_last(),
            old(self)@.len() == 0 ==> final(self)@ == old(self)@ && r == Err::<(), FatalError>(
                FatalError::EmptyStack,
            ),
            old(self).wf() ==> final(self).wf(),
    {
        let r = match self.programs.pop() {
            Some(_) => Ok(()),
            None => Err(FatalError::EmptyStack),
        };
        proof {
            if old(self).wf() {
                assert forall|i: int| 0 <= i < self@.len() implies self@[i].wf() by {
                    assert(self@[i] == old(self)@[i]);
                    assert(old(self)@[i].wf());
                }
            }
        }
        r
    }

    /// The current program: the last one pushed. Querying an empty registry
    /// is a fatal logic error, like popping it.
    pub fn current(&self) -> (r: Result<&Program, FatalError>)
        ensures
            r is Ok <==> self@.len() > 0,
            (r matches Ok(p) ==> *p == self@.last()),
            r is Err ==> r == Err::<&Program, FatalError>(FatalError::EmptyStack),
    {
        let n: usize = self.programs.len();
        if n == 0 {
            Err(FatalError::EmptyStack)
        } else {
            Ok(&self.programs[n - 1])
        }
    }

    /// Mutable access to the current program. There is no current program
    /// in an empty registry, so one is required; callers that cannot know
    /// ask `current` first.
    pub fn current_mut(&mut self) -> (r: &mut Program)
        requires
            old(self)@.len() > 0,
        ensures
            *r == old(self)@.last(),
            final(self)@ == old(self)@.update(old(self)@.len() - 1, *final(r)),
    {
        let n: usize = self.programs.len();
        &mut self.programs[n - 1]
    }
}

/// Law: starting from registry contents `s0`, pushing the instances of
/// `pushed` in order and then popping `j` of them (fewer than were pushed)
/// leaves current the instance pushed `j` from the end — with everything
/// recorded at push time intact, since no operation rewrites the entries
/// below the top.
pub proof fn lemma_current_after_pushes_and_pops(s0: Seq<Program>, pushed: Seq<Program>, j: int)
    requires
        0 <= j < pushed.len(),
    ensures
        (s0 + pushed).take(s0.len() + pushed.len() - j).last() == pushed[pushed.len() - j - 1],
{
    let s = (s0 + pushed).take(s0.len() + pushed.len() - j);
    assert(s.last() == (s0 + pushed)[s0.len() + pushed.len() - j - 1]);
    assert((s0 + pushed)[s0.len() + pushed.len() - j - 1] == pushed[pushed.len() - j - 1]);
}

/// Law: a push followed by a pop restores the registry exactly; the
/// previously current instance is current again, untouched by the nested
/// one's execution.
pub proof fn lemma_push_then_pop(s: Seq<Program>, p: Program)
    ensures
        s.push(p).drop_last() == s,
        s.len() > 0 ==> s.push(p).drop_last().last() == s.last(),
{
    assert(s.push(p).drop_last() =~= s);
}

} // verus!
