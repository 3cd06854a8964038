//! The mock registry: a parallel dispatcher for offline simulation.
//!
//! Test code registers handlers under the same composite identifiers the
//! real dispatcher derives, and routes raw call buffers to them without
//! a host runtime. Registering a second handler under an already-taken
//! identifier is rejected; dispatching to an identifier with no handler
//! fails the calling test rather than aborting a call chain.

use vstd::prelude::*;
use crate::codec::{
    decode_args, encode_output, spec_decode_args, spec_encode_output, Args, InputShape, OutputValue,
};
use crate::dispatch::DescriptorTable;
use crate::ids::{composite_id, lemma_composite_id_injective, spec_composite_id};

verus! {

/// A mock-registry failure, surfaced to the calling test.
#[derive(Clone, Copy, Debug, PartialEq, Eq, Structural)]
pub enum MockError {
    /// No handler is registered under the composite identifier.
    UnregisteredChainExtension,
    /// The input buffer could not be decoded at the registered shape.
    DecodingFailed,
    /// A handler is already registered under the composite identifier.
    DuplicateId,
}

/// A mocked extension method: maps decoded arguments straight to an
/// output value, standing in for the native implementation.
pub trait MockExtension {
    /// Run the mocked method registered under the composite identifier.
    fn call(&mut self, composite_id: u32, args: Args) -> OutputValue;
}

/// One registration: a composite identifier, the input shape its
/// arguments decode at, and the handler.
pub struct MockEntry<H> {
    /// The composite identifier the handler answers to.
    pub composite_id: u32,
    /// The declared input tuple shape of the mocked method.
    pub shape: InputShape,
    /// The mocked implementation.
    pub handler: H,
}

/// An ordered set of handlers keyed by composite identifier.
pub struct MockRegistry<H> {
    entries: Vec<MockEntry<H>>,
}

impl<H> MockRegistry<H> {
    /// The registrations, in registration order.
    pub closed spec fn spec_entries(&self) -> Seq<MockEntry<H>> {
        self.entries@
    }

    /// Whether a handler is registered under the identifier.
    pub open spec fn spec_registered(&self, composite_id: u32) -> bool {
        exists|i: int|
            0 <= i < self.spec_entries().len() && (#[trigger] self.spec_entries()[i]).composite_id
                == composite_id
    }

    /// Composite identifiers are pairwise distinct.
    pub open spec fn wf(&self) -> bool {
        forall|i: int, j: int|
            0 <= i < j < self.spec_entries().len() ==> self.spec_entries()[i].composite_id
                != self.spec_entries()[j].composite_id
    }

    /// An empty registry.
    pub fn new() -> (r: Self)
        ensures
            r.spec_entries() == Seq::<MockEntry<H>>::empty(),
            r.wf(),
    {
        MockRegistry { entries: Vec::new() }
    }

    /// Register a handler under a composite identifier. A second
    /// registration under the same identifier is rejected and changes
    /// nothing.
    pub fn register_handler(&mut self, composite_id: u32, shape: InputShape, handler: H) -> (r:
        Result<(), MockError>)
        requires
            old(self).wf(),
        ensures
            final(self).wf(),
            old(self).spec_registered(composite_id) ==> {
                &&& r == Err::<(), MockError>(MockError::DuplicateId)
                &&& final(self).spec_entries() == old(self).spec_entries()
            },
            !old(self).spec_registered(composite_id) ==> {
                &&& r is Ok
                &&& final(self).spec_entries().len() == old(self).spec_entries().len() + 1
                &&& final(self).spec_entries().take(old(self).spec_entries().len() as int) == old(
                    self,
                ).spec_entries()
                &&& final(self).spec_entries().last().composite_id == composite_id
                &&& final(self).spec_entries().last().shape == shape
                &&& final(self).spec_entries().last().handler == handler
            },
    {
        let mut i: usize = 0;
        let n = self.entries.len();
        while i < n
            invariant
                n == self.spec_entries().len(),
                i <= n,
                old(self).wf(),
                *self == *old(self),
                forall|j: int|
                    0 <= j < i ==> (#[trigger] self.spec_entries()[j]).composite_id
                        != composite_id,
            decreases n - i,
        {
            if self.entries[i].composite_id == composite_id {
                return Err(MockError::DuplicateId);
            }
            i = i + 1;
        }
        let ghost old_entries = self.entries@;
        self.entries.push(MockEntry { composite_id, shape, handler });
        proof {
            assert(self.entries@.take(old_entries.len() as int) =~= old_entries);
        }
        Ok(())
    }

    /// Register one handler context for every method of a descriptor
    /// table, each under the composite identifier the dispatcher
    /// derives for it, so that both sides resolve identical metadata.
    /// The registration succeeds exactly when none of those identifiers
    /// is already taken; a rejected registration changes nothing.
    pub fn register_extension(&mut self, table: &DescriptorTable, context: H) -> (r: Result<
        (),
        MockError,
    >) where H: Clone
        requires
            old(self).wf(),
            table.wf(),
        ensures
            final(self).wf(),
            (r is Ok) == (forall|i: int|
                0 <= i < table.methods@.len() ==> !old(self).spec_registered(
                    spec_composite_id(
                        table.extension_id,
                        (#[trigger] table.methods@[i]).method_id,
                    ),
                )),
            r is Err ==> {
                &&& r == Err::<(), MockError>(MockError::DuplicateId)
                &&& *final(self) == *old(self)
            },
            r is Ok ==> {
                &&& final(self).spec_entries().len() == old(self).spec_entries().len()
                    + table.methods@.len()
                &&& final(self).spec_entries().take(old(self).spec_entries().len() as int) == old(
                    self,
                ).spec_entries()
                &&& forall|i: int|
                    0 <= i < table.methods@.len() ==> {
                        &&& (#[trigger] final(self).spec_entries()[old(
                            self,
                        ).spec_entries().len() + i]).composite_id == spec_composite_id(
                            table.extension_id,
                            table.methods@[i].method_id,
                        )
                        &&& final(self).spec_entries()[old(self).spec_entries().len()
                            + i].shape == table.methods@[i].input_shape
                    }
            },
    {
        let n = table.methods.len();
        let mut i: usize = 0;
        while i < n
            invariant
                n == table.methods@.len(),
                i <= n,
                *self == *old(self),
                old(self).wf(),
                table.wf(),
                forall|j: int|
                    0 <= j < i ==> !old(self).spec_registered(
                        spec_composite_id(
                            table.extension_id,
                            (#[trigger] table.methods@[j]).method_id,
                        ),
                    ),
            decreases n - i,
        {
            let id = composite_id(table.extension_id, table.methods[i].method_id);
            if self.is_registered(id) {
                assert(old(self).spec_registered(
                    spec_composite_id(table.extension_id, table.methods@[i as int].method_id),
                ));
                return Err(MockError::DuplicateId);
            }
            i = i + 1;
        }
        let ghost base = self.spec_entries();
        let mut i: usize = 0;
        while i < n
            invariant
                n == table.methods@.len(),
                i <= n,
                base == old(self).spec_entries(),
                old(self).wf(),
                table.wf(),
                self.wf(),
                self.spec_entries().len() == base.len() + i,
                self.spec_entries().take(base.len() as int) == base,
                forall|j: int|
                    0 <= j < n ==> !old(self).spec_registered(
                        spec_composite_id(
                            table.extension_id,
                            (#[trigger] table.methods@[j]).method_id,
                        ),
                    ),
                forall|j: int|
                    0 <= j < i ==> {
                        &&& (#[trigger] self.spec_entries()[base.len() + j]).composite_id
                            == spec_composite_id(
                            table.extension_id,
                            table.methods@[j].method_id,
                        )
                        &&& self.spec_entries()[base.len() + j].shape
                            == table.methods@[j].input_shape
                    },
            decreases n - i,
        {
            let ghost before = self.spec_entries();
            let id = composite_id(table.extension_id, table.methods[i].method_id);
            let shape = table.methods[i].input_shape;
            proof {
                assert forall|w: int|
                    0 <= w < before.len() implies (#[trigger] before[w]).composite_id != id by {
                    if w < base.len() {
                        assert(before[w] == before.take(base.len() as int)[w]);
                        assert(before[w] == base[w]);
                        assert(base[w] == old(self).spec_entries()[w]);
                    } else {
                        let j = w - base.len();
                        assert(before[base.len() + j].composite_id == spec_composite_id(
                            table.extension_id,
                            table.methods@[j].method_id,
                        ));
                        assert(before[w].composite_id == spec_composite_id(
                            table.extension_id,
                            table.methods@[j].method_id,
                        ));
                        if before[w].composite_id == id {
                            lemma_composite_id_injective(
                                table.extension_id,
                                table.methods@[j].method_id,
                                table.extension_id,
                                table.methods@[i as int].method_id,
                            );
                        }
                    }
                }
                assert(!self.spec_registered(id));
            }
            match self.register_handler(id, shape, context.clone()) {
                Ok(_) => {},
                Err(_) => {
                    return Err(MockError::DuplicateId);
                },
            }
            proof {
                assert(self.spec_entries().take(base.len() as int) =~= base) by {
                    assert forall|w: int| 0 <= w < base.len() implies self.spec_entries().take(
                        base.len() as int,
                    )[w] == base[w] by {
                        assert(self.spec_entries()[w] == self.spec_entries().take(
                            before.len() as int,
                        )[w]);
                        assert(self.spec_entries()[w] == before[w]);
                        assert(before[w] == before.take(base.len() as int)[w]);
                    }
                }
                assert forall|j: int|
                    0 <= j < i + 1 implies {
                        &&& (#[trigger] self.spec_entries()[base.len() + j]).composite_id
                            == spec_composite_id(
                            table.extension_id,
                            table.methods@[j].method_id,
                        )
                        &&& self.spec_entries()[base.len() + j].shape
                            == table.methods@[j].input_shape
                    } by {
                    if j < i {
                        assert(self.spec_entries()[base.len() + j] == self.spec_entries().take(
                            before.len() as int,
                        )[base.len() + j]);
                        assert(self.spec_entries()[base.len() + j] == before[base.len() + j]);
                    } else {
                        assert(self.spec_entries()[base.len() + j] == self.spec_entries().last());
                    }
                }
            }
            i = i + 1;
        }
        Ok(())
    }

    /// Whether a handler is registered under the identifier.
    pub fn is_registered(&self, composite_id: u32) -> (r: bool)
        ensures
            r == self.spec_registered(composite_id),
    {
        let mut i: usize = 0;
        let n = self.entries.len();
        while i < n
            invariant
                n == self.spec_entries().len(),
                i <= n,
                forall|j: int|
                    0 <= j < i ==> (#[trigger] self.spec_entries()[j]).composite_id
                        != composite_id,
            decreases n - i,
        {
            if self.entries[i].composite_id == composite_id {
                assert(self.spec_registered(composite_id));
                return true;
            }
            i = i + 1;
        }
        false
    }
}

impl<H: MockExtension> MockRegistry<H> {
    /// Simulate one call: find the handler registered under the
    /// composite identifier, decode the input at the registered shape,
    /// run the handler, and encode its output. Dispatch to an
    /// unregistered identifier fails; so does an input that does not
    /// decode.
    pub fn dispatch(&mut self, composite_id: u32, input: &[u8]) -> (r: Result<Vec<u8>, MockError>)
        requires
            old(self).wf(),
        ensures
            final(self).wf(),
            final(self).spec_entries().len() == old(self).spec_entries().len(),
            forall|i: int|
                0 <= i < final(self).spec_entries().len() ==> {
                    &&& (#[trigger] final(self).spec_entries()[i]).composite_id == old(
                        self,
                    ).spec_entries()[i].composite_id
                    &&& final(self).spec_entries()[i].shape == old(self).spec_entries()[i].shape
                },
            forall|i: int|
                0 <= i < old(self).spec_entries().len()
                    && (#[trigger] old(self).spec_entries()[i]).composite_id != composite_id
                    ==> final(self).spec_entries()[i] == old(self).spec_entries()[i],
            !old(self).spec_registered(composite_id) ==> {
                &&& r == Err::<Vec<u8>, MockError>(MockError::UnregisteredChainExtension)
                &&& final(self).spec_entries() == old(self).spec_entries()
            },
            old(self).spec_registered(composite_id) ==> {
                let shape = spec_registered_shape(*old(self), composite_id);
                match spec_decode_args(shape, input@) {
                    None => {
                        &&& r == Err::<Vec<u8>, MockError>(MockError::DecodingFailed)
                        &&& final(self).spec_entries() == old(self).spec_entries()
                    },
                    Some(_) => r matches Ok(bytes) && (exists|v: OutputValue|
                        bytes@ == spec_encode_output(v)),
                }
            },
    {
        let mut i: usize = 0;
        let n = self.entries.len();
        while i < n
            invariant
                n == self.spec_entries().len(),
                i <= n,
                old(self).wf(),
                *self == *old(self),
                forall|j: int|
                    0 <= j < i ==> (#[trigger] self.spec_entries()[j]).composite_id
                        != composite_id,
            decreases n - i,
        {
            if self.entries[i].composite_id == composite_id {
                proof {
                    lemma_registered_shape(*self, composite_id, i as int);
                }
                let shape = self.entries[i].shape;
                let args = match decode_args(shape, input) {
                    Some(a) => a,
                    None => {
                        return Err(MockError::DecodingFailed);
                    },
                };
                let ghost before = self.spec_entries();
                let out = self.entries[i].handler.call(composite_id, args);
                proof {
                    assert forall|w: int|
                        0 <= w < before.len() && (#[trigger] before[w]).composite_id
                            != composite_id implies self.spec_entries()[w] == before[w] by {
                        assert(w != i as int);
                        assert(self.spec_entries()[w] == before.update(
                            i as int,
                            self.spec_entries()[i as int],
                        )[w]);
                    }
                }
                return Ok(encode_output(&out));
            }
            i = i + 1;
        }
        Err(MockError::UnregisteredChainExtension)
    }
}

/// The shape registered under an identifier; meaningful when one is.
pub open spec fn spec_registered_shape<H>(reg: MockRegistry<H>, composite_id: u32) -> InputShape {
    let i = choose|i: int|
        0 <= i < reg.spec_entries().len() && (#[trigger] reg.spec_entries()[i]).composite_id
            == composite_id;
    reg.spec_entries()[i].shape
}

/// In a well-formed registry the registered shape is the found entry's.
proof fn lemma_registered_shape<H>(reg: MockRegistry<H>, composite_id: u32, i: int)
    requires
        reg.wf(),
        0 <= i < reg.spec_entries().len(),
        reg.spec_entries()[i].composite_id == composite_id,
    ensures
        spec_registered_shape(reg, composite_id) == reg.spec_entries()[i].shape,
{
    let j = choose|j: int|
        0 <= j < reg.spec_entries().len() && (#[trigger] reg.spec_entries()[j]).composite_id
            == composite_id;
    if i < j {
        assert(reg.spec_entries()[i].composite_id != reg.spec_entries()[j].composite_id);
    } else if j < i {
        assert(reg.spec_entries()[j].composite_id != reg.spec_entries()[i].composite_id);
    }
}

} // verus!
