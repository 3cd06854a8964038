//! The dispatcher: the per-call protocol state machine.
//!
//! A call arrives as a composite identifier and a length-prefixed byte
//! buffer held by a call envelope. The dispatcher resolves the method
//! against the descriptor table, charges its weight at the declared
//! point relative to argument decoding, invokes the handler, classifies
//! the outcome and either writes the encoded result back, short-circuits
//! to a declared status code, or propagates a fatal error with nothing
//! written.

use vstd::prelude::*;
use crate::codec::{
    decode_args, encode_output, spec_decode_args, spec_encode_output, Args, InputShape, OutputValue,
};
use crate::error::{
    spec_ret_val_of, spec_taxonomy_maps_code, CriticalError, ErrorTaxonomy, ErrorValue, RetVal,
};
use crate::ids::{lemma_composite_id_injective, spec_composite_id};
use crate::weight::{
    eval_amount, spec_charges, spec_eval_amount, spec_is_pre_charge, ChargedAmount, WeightLedger,
    WeightPolicy,
};

verus! {

/// One observable step of a call, in the order the dispatcher took it.
#[derive(Clone, Copy, Debug, PartialEq, Eq, Structural)]
pub enum CallEvent {
    /// The weight charge was invoked with this amount.
    Charged(u64),
    /// The input buffer was read and decoded.
    ArgsRead,
    /// The response payload was written to the output buffer.
    Wrote,
    /// A previous charge was adjusted down to this actual amount.
    Adjusted(u64),
}

/// In a pre-charge trace, no read happens before a charge was invoked.
pub open spec fn spec_charged_before_read(s: Seq<CallEvent>) -> bool {
    forall|i: int|
        0 <= i < s.len() && s[i] is ArgsRead ==> exists|j: int| 0 <= j < i && s[j] is Charged
}

/// In a post-charge trace, no charge happens before the read.
pub open spec fn spec_read_before_charged(s: Seq<CallEvent>) -> bool {
    forall|i: int|
        0 <= i < s.len() && s[i] is Charged ==> exists|j: int| 0 <= j < i && s[j] is ArgsRead
}

/// The runtime unit of one invocation: the composite identifier halves,
/// the input buffer, the guest's output buffer capacity, the cost
/// ledger, and the trace of steps taken. It is created per call and
/// exclusively owned by the in-flight call.
#[derive(Debug)]
pub struct CallEnvelope {
    /// The extension half of the composite identifier.
    pub ext_id: u16,
    /// The method half of the composite identifier.
    pub func_id: u16,
    /// The raw argument bytes passed by the guest.
    pub input: Vec<u8>,
    /// How many bytes the guest-supplied output buffer can take.
    pub out_capacity: usize,
    /// The written response payload; nothing until the call encodes.
    pub output: Option<Vec<u8>>,
    /// The cost ledger of the outer execution.
    pub ledger: WeightLedger,
    /// The steps taken so far.
    pub events: Vec<CallEvent>,
}

/// Everything of an envelope but its event trace is unchanged.
pub open spec fn spec_only_events_changed(pre: CallEnvelope, post: CallEnvelope) -> bool {
    &&& post.ext_id == pre.ext_id
    &&& post.func_id == pre.func_id
    &&& post.input == pre.input
    &&& post.out_capacity == pre.out_capacity
    &&& post.output == pre.output
    &&& post.ledger == pre.ledger
}

/// Everything of an envelope but its ledger and event trace is
/// unchanged.
pub open spec fn spec_only_ledger_events_changed(pre: CallEnvelope, post: CallEnvelope) -> bool {
    &&& post.ext_id == pre.ext_id
    &&& post.func_id == pre.func_id
    &&& post.input == pre.input
    &&& post.out_capacity == pre.out_capacity
    &&& post.output == pre.output
}

/// Everything of an envelope but its output and event trace is
/// unchanged.
pub open spec fn spec_only_output_events_changed(pre: CallEnvelope, post: CallEnvelope) -> bool {
    &&& post.ext_id == pre.ext_id
    &&& post.func_id == pre.func_id
    &&& post.input == pre.input
    &&& post.out_capacity == pre.out_capacity
    &&& post.ledger == pre.ledger
}

impl CallEnvelope {
    /// The ledger is consistent and the input length fits the wire's
    /// 32-bit length field.
    pub open spec fn wf(&self) -> bool {
        &&& self.ledger.wf()
        &&& self.input@.len() <= u32::MAX
    }

    /// A fresh envelope for one call: nothing written, nothing spent,
    /// no steps taken.
    pub fn new(
        ext_id: u16,
        func_id: u16,
        input: Vec<u8>,
        out_capacity: usize,
        weight_limit: u64,
    ) -> (r: Self)
        requires
            input@.len() <= u32::MAX,
        ensures
            r.ext_id == ext_id,
            r.func_id == func_id,
            r.input == input,
            r.out_capacity == out_capacity,
            r.output is None,
            r.ledger.spec_limit() == weight_limit,
            r.ledger.spec_spent() == 0,
            r.events@ == Seq::<CallEvent>::empty(),
            r.wf(),
    {
        CallEnvelope {
            ext_id,
            func_id,
            input,
            out_capacity,
            output: None,
            ledger: WeightLedger::new(weight_limit),
            events: Vec::new(),
        }
    }

    /// The length of the input as passed by the guest.
    pub fn in_len(&self) -> (r: u32)
        requires
            self.wf(),
        ensures
            r == self.input@.len(),
    {
        self.input.len() as u32
    }

    /// The method half of the composite identifier passed by the guest.
    pub fn func_id(&self) -> (r: u16)
        ensures
            r == self.func_id,
    {
        self.func_id
    }

    /// The extension half of the composite identifier passed by the
    /// guest.
    pub fn ext_id(&self) -> (r: u16)
        ensures
            r == self.ext_id,
    {
        self.ext_id
    }

    /// Read the input buffer and decode it at the given shape. Decoding
    /// trusts the previously charged weight and is not bounds-checked
    /// beyond what the shape itself needs; failure is fatal.
    pub fn read_args(&mut self, shape: InputShape) -> (r: Result<Args, CriticalError>)
        ensures
            spec_only_events_changed(*old(self), *final(self)),
            final(self).events@ == old(self).events@.push(CallEvent::ArgsRead),
            match spec_decode_args(shape, old(self).input@) {
                Some(a) => r == Ok::<Args, CriticalError>(a),
                None => r == Err::<Args, CriticalError>(CriticalError::DecodingFailed),
            },
    {
        self.events.push(CallEvent::ArgsRead);
        match decode_args(shape, self.input.as_slice()) {
            Some(a) => Ok(a),
            None => Err(CriticalError::DecodingFailed),
        }
    }

    /// Write the response payload to the guest's output buffer. A
    /// payload beyond the buffer's capacity is a fatal encoding failure
    /// and nothing is written.
    pub fn write(&mut self, buffer: Vec<u8>) -> (r: Result<(), CriticalError>)
        ensures
            spec_only_output_events_changed(*old(self), *final(self)),
            buffer@.len() <= old(self).out_capacity ==> {
                &&& r is Ok
                &&& final(self).output matches Some(out) && out@ == buffer@
                &&& final(self).events@ == old(self).events@.push(CallEvent::Wrote)
            },
            buffer@.len() > old(self).out_capacity ==> {
                &&& r == Err::<(), CriticalError>(CriticalError::BufferTooSmall)
                &&& *final(self) == *old(self)
            },
    {
        if buffer.len() <= self.out_capacity {
            self.output = Some(buffer);
            self.events.push(CallEvent::Wrote);
            Ok(())
        } else {
            Err(CriticalError::BufferTooSmall)
        }
    }

    /// Invoke the cost charge for this amount against the ledger. The
    /// invocation is recorded whether or not the budget suffices; a
    /// failed charge leaves the ledger unchanged and is fatal.
    pub fn charge_weight(&mut self, amount: u64) -> (r: Result<ChargedAmount, CriticalError>)
        requires
            old(self).wf(),
        ensures
            final(self).wf(),
            spec_only_ledger_events_changed(*old(self), *final(self)),
            final(self).events@ == old(self).events@.push(CallEvent::Charged(amount)),
            final(self).ledger.spec_limit() == old(self).ledger.spec_limit(),
            old(self).ledger.spec_spent() + amount <= old(self).ledger.spec_limit() ==> {
                &&& r matches Ok(h) && h.spec_amount() == amount
                &&& final(self).ledger.spec_spent() == old(self).ledger.spec_spent() + amount
            },
            old(self).ledger.spec_spent() + amount > old(self).ledger.spec_limit() ==> {
                &&& r == Err::<ChargedAmount, CriticalError>(CriticalError::Exhausted)
                &&& final(self).ledger == old(self).ledger
            },
    {
        self.events.push(CallEvent::Charged(amount));
        self.ledger.charge_weight(amount)
    }

    /// Adjust a previous charge down to its actual amount, refunding
    /// the difference to the ledger.
    pub fn adjust_weight(&mut self, charged: ChargedAmount, actual: u64)
        requires
            old(self).wf(),
            charged.spec_amount() <= old(self).ledger.spec_spent(),
        ensures
            final(self).wf(),
            spec_only_ledger_events_changed(*old(self), *final(self)),
            final(self).events@ == old(self).events@.push(CallEvent::Adjusted(actual)),
            final(self).ledger.spec_limit() == old(self).ledger.spec_limit(),
            actual < charged.spec_amount() ==> final(self).ledger.spec_spent() == old(
                self,
            ).ledger.spec_spent() - (charged.spec_amount() - actual),
            actual >= charged.spec_amount() ==> final(self).ledger.spec_spent() == old(
                self,
            ).ledger.spec_spent(),
    {
        self.events.push(CallEvent::Adjusted(actual));
        self.ledger.adjust_weight(charged, actual);
    }
}

/// The static description of one method: its identifier, input shape,
/// output presence, weight policy, and error declaration. Fixed at
/// declaration time, identical in every build that shares the
/// declaration.
#[derive(Debug)]
pub struct MethodDescriptor {
    /// The method's 16-bit identifier.
    pub method_id: u16,
    /// The declared input tuple shape.
    pub input_shape: InputShape,
    /// How and when the method's cost is charged.
    pub weight_policy: WeightPolicy,
    /// Whether recoverable errors are first tried against the declared
    /// status-code mappings.
    pub uses_ret_val: bool,
    /// The method's validated error declaration; empty when the method
    /// declares no error type.
    pub taxonomy: ErrorTaxonomy,
}

/// The static mapping the dispatcher and the mock registry both
/// resolve: every method of one extension, plus the cost table that
/// mirrored-dispatch policies read.
#[derive(Debug)]
pub struct DescriptorTable {
    /// The extension's 16-bit identifier.
    pub extension_id: u16,
    /// The extension's methods.
    pub methods: Vec<MethodDescriptor>,
    /// Costs of the first-class operations that mirrored-dispatch
    /// policies refer to.
    pub cost_table: Vec<u64>,
}

impl DescriptorTable {
    /// Method identifiers are pairwise distinct, every error
    /// declaration is validated, and every mirrored-dispatch policy
    /// points into the cost table.
    pub open spec fn wf(&self) -> bool {
        &&& forall|i: int, j: int|
            0 <= i < j < self.methods@.len() ==> self.methods@[i].method_id
                != self.methods@[j].method_id
        &&& forall|i: int| 0 <= i < self.methods@.len() ==> (#[trigger] self.methods@[i]).taxonomy.wf()
        &&& forall|i: int|
            0 <= i < self.methods@.len()
                ==> ((#[trigger] self.methods@[i]).weight_policy matches WeightPolicy::DispatchCall {
                call_index,
            } ==> call_index < self.cost_table@.len())
    }

    /// Whether some method of the table carries this identifier.
    pub open spec fn spec_has_method(&self, func_id: u16) -> bool {
        exists|i: int|
            0 <= i < self.methods@.len() && (#[trigger] self.methods@[i]).method_id == func_id
    }

    /// Resolve a method identifier to its descriptor's position.
    pub fn lookup(&self, func_id: u16) -> (r: Option<usize>)
        ensures
            match r {
                Some(i) => i < self.methods@.len() && self.methods@[i as int].method_id == func_id,
                None => !self.spec_has_method(func_id),
            },
    {
        let mut i: usize = 0;
        while i < self.methods.len()
            invariant
                i <= self.methods@.len(),
                forall|j: int|
                    0 <= j < i ==> (#[trigger] self.methods@[j]).method_id != func_id,
            decreases self.methods@.len() - i,
        {
            if self.methods[i].method_id == func_id {
                return Some(i);
            }
            i = i + 1;
        }
        None
    }
}

/// The position of the method carrying an identifier; meaningful when
/// the table has one.
pub open spec fn spec_method_index(table: DescriptorTable, func_id: u16) -> int {
    choose|i: int|
        0 <= i < table.methods@.len() && (#[trigger] table.methods@[i]).method_id == func_id
}

/// In a well-formed table the resolved position is the only one.
pub proof fn lemma_method_index_unique(table: DescriptorTable, func_id: u16, i: int)
    requires
        table.wf(),
        0 <= i < table.methods@.len(),
        table.methods@[i].method_id == func_id,
    ensures
        spec_method_index(table, func_id) == i,
{
    let j = spec_method_index(table, func_id);
    if i < j {
        assert(table.methods@[i].method_id != table.methods@[j].method_id);
    } else if j < i {
        assert(table.methods@[j].method_id != table.methods@[i].method_id);
    }
}

/// The amount a weight policy charges for a call of the given input
/// length, reading mirrored costs from the cost table.
pub open spec fn spec_policy_amount(p: WeightPolicy, cost_table: Seq<u64>, in_len: u32) -> u64 {
    match p {
        WeightPolicy::NoCharge => 0,
        WeightPolicy::Expr { amount, .. } => spec_eval_amount(amount, in_len),
        WeightPolicy::DispatchCall { call_index } => cost_table[call_index as int],
    }
}

/// The per-call context handed to a handler: holds the pre-charge
/// handle, which the handler may take once to adjust the charge down to
/// the cost actually incurred.
#[derive(Debug)]
pub struct ExtensionContext {
    pre_charged: Option<ChargedAmount>,
}

impl ExtensionContext {
    /// The pre-charge handle still held.
    pub closed spec fn spec_pre_charged(&self) -> Option<ChargedAmount> {
        self.pre_charged
    }

    /// A context holding the given pre-charge handle, if the method's
    /// policy charged before decoding.
    pub fn new(pre_charged: Option<ChargedAmount>) -> (r: Self)
        ensures
            r.spec_pre_charged() == pre_charged,
    {
        ExtensionContext { pre_charged }
    }

    /// Take the pre-charge handle; a second take yields nothing.
    pub fn pre_charged(&mut self) -> (r: Option<ChargedAmount>)
        ensures
            r == old(self).spec_pre_charged(),
            final(self).spec_pre_charged() is None,
    {
        let r = self.pre_charged;
        self.pre_charged = None;
        r
    }
}

/// A chain extension whose methods the dispatcher can invoke with
/// decoded arguments. Implementations are the native method bodies; the
/// dispatcher assumes nothing of them.
pub trait CallableChainExtension {
    /// Run the method carrying the given identifier on decoded
    /// arguments.
    fn call_method(
        &mut self,
        ctx: &mut ExtensionContext,
        method_id: u16,
        args: Args,
    ) -> Result<OutputValue, ErrorValue>;
}

/// The response payload for a handler outcome: a success value is
/// encoded directly when the method declares no error type, and behind
/// the converging tag byte when it does; a recoverable error encodes as
/// the error tag byte and its variant.
pub open spec fn spec_response_payload(
    tax: &ErrorTaxonomy,
    result: Result<OutputValue, ErrorValue>,
) -> Seq<u8> {
    match result {
        Ok(v) => if tax.spec_variants().len() > 0 {
            seq![0u8] + spec_encode_output(v)
        } else {
            spec_encode_output(v)
        },
        Err(e) => seq![1u8, e.variant as u8],
    }
}

/// What finishing a call yields for a handler outcome: the verdict
/// handed to the host, and the payload written, if any. A critical
/// error propagates with nothing written; a mapped recoverable error
/// short-circuits to its status code with nothing written; everything
/// else is encoded, and a payload beyond the output capacity is itself
/// fatal.
pub open spec fn spec_finish_verdict(
    desc: &MethodDescriptor,
    result: Result<OutputValue, ErrorValue>,
    out_capacity: usize,
) -> (Result<RetVal, CriticalError>, Option<Seq<u8>>) {
    if result matches Err(e) && e.critical_payload is Some {
        (Err(result->Err_0.critical_payload->0), None)
    } else if result matches Err(e) && desc.uses_ret_val && spec_ret_val_of(
        &desc.taxonomy,
        e.variant as int,
    ) is Some {
        (
            Ok(RetVal::Converging(spec_ret_val_of(&desc.taxonomy, result->Err_0.variant as int)->0)),
            None,
        )
    } else {
        let payload = spec_response_payload(&desc.taxonomy, result);
        if payload.len() <= out_capacity {
            (Ok(RetVal::Converging(0)), Some(payload))
        } else {
            (Err(CriticalError::BufferTooSmall), None)
        }
    }
}

/// Build the response payload for a handler outcome.
fn build_response_payload(tax: &ErrorTaxonomy, result: &Result<OutputValue, ErrorValue>) -> (r:
    Vec<u8>)
    ensures
        r@ == spec_response_payload(tax, *result),
{
    match result {
        Ok(v) => {
            let mut body = encode_output(v);
            if tax.declares_errors() {
                let mut p: Vec<u8> = Vec::new();
                p.push(0u8);
                p.append(&mut body);
                assert(p@ =~= seq![0u8] + spec_encode_output(*v));
                p
            } else {
                body
            }
        },
        Err(e) => {
            let mut p: Vec<u8> = Vec::new();
            p.push(1u8);
            p.push(#[verifier::truncate] (e.variant as u8));
            assert(p@ =~= seq![1u8, e.variant as u8]);
            p
        },
    }
}

/// Classify a handler outcome and finish the call: propagate a critical
/// error untouched, short-circuit a mapped recoverable error to its
/// status code with zero payload, and otherwise encode the outcome into
/// the output buffer under return code zero.
pub fn finish_call(
    desc: &MethodDescriptor,
    env: &mut CallEnvelope,
    result: Result<OutputValue, ErrorValue>,
) -> (r: Result<RetVal, CriticalError>)
    requires
        old(env).wf(),
    ensures
        final(env).wf(),
        final(env).ledger == old(env).ledger,
        r == spec_finish_verdict(desc, result, old(env).out_capacity).0,
        match spec_finish_verdict(desc, result, old(env).out_capacity).1 {
            Some(payload) => {
                &&& spec_only_output_events_changed(*old(env), *final(env))
                &&& final(env).output matches Some(out) && out@ == payload
                &&& final(env).events@ == old(env).events@.push(CallEvent::Wrote)
            },
            None => *final(env) == *old(env),
        },
{
    let checked = match result {
        Err(e) => match e.critical_payload {
            Some(c) => {
                return Err(c);
            },
            None => Err(e),
        },
        Ok(v) => Ok(v),
    };
    if desc.uses_ret_val {
        if let Err(e) = &checked {
            match desc.taxonomy.ret_val_of(e.variant) {
                Some(code) => {
                    return Ok(RetVal::Converging(code));
                },
                None => {},
            }
        }
    }
    let payload = build_response_payload(&desc.taxonomy, &checked);
    match env.write(payload) {
        Ok(_) => Ok(RetVal::Converging(0)),
        Err(c) => Err(c),
    }
}

/// The events the routing phase of a completed call appends, in order:
/// the charge invocation before or after the read, per the policy.
pub open spec fn spec_prepare_events(policy: WeightPolicy, amt: u64) -> Seq<CallEvent> {
    if spec_is_pre_charge(policy) {
        seq![CallEvent::Charged(amt), CallEvent::ArgsRead]
    } else if spec_charges(policy) {
        seq![CallEvent::ArgsRead, CallEvent::Charged(amt)]
    } else {
        seq![CallEvent::ArgsRead]
    }
}

/// Whether a dispatch verdict and written output are what finishing the
/// given handler outcome yields.
pub open spec fn spec_explained_by(
    desc: MethodDescriptor,
    outcome: Result<OutputValue, ErrorValue>,
    out_capacity: usize,
    r: Result<RetVal, CriticalError>,
    output: Option<Vec<u8>>,
) -> bool {
    &&& r == spec_finish_verdict(&desc, outcome, out_capacity).0
    &&& match spec_finish_verdict(&desc, outcome, out_capacity).1 {
        Some(payload) => output matches Some(out) && out@ == payload,
        None => output is None,
    }
}

/// Route one call: resolve the composite identifier against the table,
/// charge the method's weight at its declared point relative to
/// argument decoding, invoke the handler, and finish the call. An
/// unknown identifier, a failed charge, a failed decode and a critical
/// handler error are all fatal and leave the output buffer untouched;
/// only a finished call writes, under return code zero, or
/// short-circuits to a declared status code with zero payload.
pub fn dispatch<X: CallableChainExtension>(
    table: &DescriptorTable,
    extension: &mut X,
    env: &mut CallEnvelope,
) -> (r: Result<RetVal, CriticalError>)
    requires
        table.wf(),
        old(env).wf(),
        old(env).output is None,
    ensures
        final(env).wf(),
        final(env).ext_id == old(env).ext_id,
        final(env).func_id == old(env).func_id,
        final(env).input == old(env).input,
        final(env).out_capacity == old(env).out_capacity,
        final(env).ledger.spec_limit() == old(env).ledger.spec_limit(),
        final(env).events@.take(old(env).events@.len() as int) == old(env).events@,
        !table.spec_has_method(old(env).func_id) ==> {
            &&& r == Err::<RetVal, CriticalError>(CriticalError::InvalidFunctionId)
            &&& *final(env) == *old(env)
        },
        r is Err ==> final(env).output is None,
        final(env).output is Some ==> r == Ok::<RetVal, CriticalError>(RetVal::Converging(0)),
        spec_is_nonzero_code(r) ==> {
            &&& final(env).output is None
            &&& spec_taxonomy_maps_code(
                &table.methods@[spec_method_index(*table, old(env).func_id)].taxonomy,
                r->Ok_0->0,
            )
        },
        table.spec_has_method(old(env).func_id) ==> {
            let desc = table.methods@[spec_method_index(*table, old(env).func_id)];
            let added = final(env).events@.skip(old(env).events@.len() as int);
            &&& spec_is_pre_charge(desc.weight_policy) ==> spec_charged_before_read(added)
            &&& spec_charges(desc.weight_policy) && !spec_is_pre_charge(desc.weight_policy)
                ==> spec_read_before_charged(added)
            &&& !spec_charges(desc.weight_policy) ==> forall|k: int|
                0 <= k < added.len() ==> !((#[trigger] added[k]) is Charged)
        },
        table.spec_has_method(old(env).func_id) ==> {
            let desc = table.methods@[spec_method_index(*table, old(env).func_id)];
            let amt = spec_policy_amount(
                desc.weight_policy,
                table.cost_table@,
                old(env).input@.len() as u32,
            );
            let decoded = spec_decode_args(desc.input_shape, old(env).input@);
            let spent = old(env).ledger.spec_spent();
            let limit = old(env).ledger.spec_limit();
            let added = final(env).events@.skip(old(env).events@.len() as int);
            &&& (spec_is_pre_charge(desc.weight_policy) && spent + amt > limit) ==> {
                &&& r == Err::<RetVal, CriticalError>(CriticalError::Exhausted)
                &&& final(env).ledger == old(env).ledger
                &&& added == seq![CallEvent::Charged(amt)]
            }
            &&& (spec_is_pre_charge(desc.weight_policy) && spent + amt <= limit && decoded
                is None) ==> {
                &&& r == Err::<RetVal, CriticalError>(CriticalError::DecodingFailed)
                &&& final(env).ledger.spec_spent() == spent + amt
                &&& added == seq![CallEvent::Charged(amt), CallEvent::ArgsRead]
            }
            &&& (!spec_is_pre_charge(desc.weight_policy) && decoded is None) ==> {
                &&& r == Err::<RetVal, CriticalError>(CriticalError::DecodingFailed)
                &&& final(env).ledger == old(env).ledger
                &&& added == seq![CallEvent::ArgsRead]
            }
            &&& (!spec_is_pre_charge(desc.weight_policy) && spec_charges(desc.weight_policy)
                && decoded is Some && spent + amt > limit) ==> {
                &&& r == Err::<RetVal, CriticalError>(CriticalError::Exhausted)
                &&& final(env).ledger == old(env).ledger
                &&& added == seq![CallEvent::ArgsRead, CallEvent::Charged(amt)]
            }
        },
        table.spec_has_method(old(env).func_id) ==> {
            let desc = table.methods@[spec_method_index(*table, old(env).func_id)];
            let amt = spec_policy_amount(
                desc.weight_policy,
                table.cost_table@,
                old(env).input@.len() as u32,
            );
            let decoded = spec_decode_args(desc.input_shape, old(env).input@);
            let charge_fits = old(env).ledger.spec_spent() + amt <= old(env).ledger.spec_limit();
            let added = final(env).events@.skip(old(env).events@.len() as int);
            (decoded is Some && (spec_charges(desc.weight_policy) ==> charge_fits)) ==> {
                &&& spec_charges(desc.weight_policy) ==> final(env).ledger.spec_spent() == old(
                    env,
                ).ledger.spec_spent() + amt
                &&& !spec_charges(desc.weight_policy) ==> final(env).ledger == old(env).ledger
                &&& final(env).output is Some ==> added == spec_prepare_events(
                    desc.weight_policy,
                    amt,
                ).push(CallEvent::Wrote)
                &&& final(env).output is None ==> added == spec_prepare_events(
                    desc.weight_policy,
                    amt,
                )
                &&& exists|outcome: Result<OutputValue, ErrorValue>|
                    spec_explained_by(desc, outcome, old(env).out_capacity, r, final(env).output)
            }
        },
{
    let ghost pre_env = *env;
    let len = env.in_len();
    let idx = match table.lookup(env.func_id()) {
        Some(i) => i,
        None => {
            assert(env.events@.take(pre_env.events@.len() as int) =~= pre_env.events@);
            return Err(CriticalError::InvalidFunctionId);
        },
    };
    proof {
        lemma_method_index_unique(*table, pre_env.func_id, idx as int);
    }
    let desc = &table.methods[idx];
    let (charges, pre, amt): (bool, bool, u64) = match &desc.weight_policy {
        WeightPolicy::NoCharge => (false, false, 0),
        WeightPolicy::Expr { amount, pre_charge } => (true, *pre_charge, eval_amount(amount, len)),
        WeightPolicy::DispatchCall { call_index } => (true, false, table.cost_table[*call_index]),
    };
    assert(amt == spec_policy_amount(desc.weight_policy, table.cost_table@, len));
    let mut pre_charged: Option<ChargedAmount> = None;
    if charges && pre {
        match env.charge_weight(amt) {
            Ok(h) => {
                pre_charged = Some(h);
            },
            Err(c) => {
                assert(env.events@ == pre_env.events@.push(CallEvent::Charged(amt)));
                assert(env.events@.take(pre_env.events@.len() as int) =~= pre_env.events@);
                assert(env.events@.skip(pre_env.events@.len() as int) =~= seq![
                    CallEvent::Charged(amt),
                ]);
                return Err(c);
            },
        }
    }
    let ghost charged_env = *env;
    let args = match env.read_args(desc.input_shape) {
        Ok(a) => a,
        Err(c) => {
            assert(env.events@ == charged_env.events@.push(CallEvent::ArgsRead));
            assert(env.events@.take(pre_env.events@.len() as int) =~= pre_env.events@);
            if charges && pre {
                assert(env.events@.skip(pre_env.events@.len() as int) =~= seq![
                    CallEvent::Charged(amt),
                    CallEvent::ArgsRead,
                ]);
            } else {
                assert(env.events@.skip(pre_env.events@.len() as int) =~= seq![
                    CallEvent::ArgsRead,
                ]);
            }
            return Err(c);
        },
    };
    if charges && !pre {
        match env.charge_weight(amt) {
            Ok(_) => {},
            Err(c) => {
                assert(env.events@.take(pre_env.events@.len() as int) =~= pre_env.events@);
                assert(env.events@.skip(pre_env.events@.len() as int) =~= seq![
                    CallEvent::ArgsRead,
                    CallEvent::Charged(amt),
                ]);
                return Err(c);
            },
        }
    }
    let ghost ready_env = *env;
    proof {
        if charges && pre {
            assert(ready_env.events@.skip(pre_env.events@.len() as int) =~= seq![
                CallEvent::Charged(amt),
                CallEvent::ArgsRead,
            ]);
        } else if charges {
            assert(ready_env.events@.skip(pre_env.events@.len() as int) =~= seq![
                CallEvent::ArgsRead,
                CallEvent::Charged(amt),
            ]);
        } else {
            assert(ready_env.events@.skip(pre_env.events@.len() as int) =~= seq![
                CallEvent::ArgsRead,
            ]);
        }
    }
    let mut ctx = ExtensionContext::new(pre_charged);
    let result = extension.call_method(&mut ctx, desc.method_id, args);
    let verdict = finish_call(desc, env, result);
    proof {
        assert(env.events@.take(pre_env.events@.len() as int) =~= pre_env.events@);
        let added = env.events@.skip(pre_env.events@.len() as int);
        let ready_added = ready_env.events@.skip(pre_env.events@.len() as int);
        assert(ready_added =~= spec_prepare_events(desc.weight_policy, amt));
        if spec_finish_verdict(desc, result, ready_env.out_capacity).1 is Some {
            assert(env.events@ == ready_env.events@.push(CallEvent::Wrote));
            assert(added =~= ready_added.push(CallEvent::Wrote));
        } else {
            assert(added =~= ready_added);
        }
        if charges && pre {
            assert(added[0] is Charged);
            assert(spec_charged_before_read(added)) by {
                assert forall|i: int|
                    0 <= i < added.len() && added[i] is ArgsRead implies exists|j: int|
                    0 <= j < i && added[j] is Charged by {
                    assert(added[0] is Charged);
                    assert(!(added[0] is ArgsRead));
                }
            }
        } else if charges {
            assert(added[0] is ArgsRead);
            assert(spec_read_before_charged(added)) by {
                assert forall|i: int|
                    0 <= i < added.len() && added[i] is Charged implies exists|j: int|
                    0 <= j < i && added[j] is ArgsRead by {
                    assert(added[0] is ArgsRead);
                    assert(!(added[0] is Charged));
                }
            }
        } else {
            assert forall|k: int| 0 <= k < added.len() implies !((#[trigger] added[k])
                is Charged) by {
                assert(added[k] == CallEvent::ArgsRead || added[k] == CallEvent::Wrote);
            }
        }
        if spec_is_nonzero_code(verdict) {
            lemma_nonzero_code_is_mapped(desc, result, ready_env.out_capacity, verdict);
        }
        assert(spec_explained_by(*desc, result, pre_env.out_capacity, verdict, env.output));
    }
    verdict
}

/// Within one extension, distinct methods map to distinct composite
/// identifiers: the composite mapping is injective over a well-formed
/// descriptor table.
pub proof fn lemma_table_composite_ids_injective(table: DescriptorTable, i: int, j: int)
    requires
        table.wf(),
        0 <= i < j < table.methods@.len(),
    ensures
        spec_composite_id(table.extension_id, table.methods@[i].method_id) != spec_composite_id(
            table.extension_id,
            table.methods@[j].method_id,
        ),
{
    let mi = table.methods@[i].method_id;
    let mj = table.methods@[j].method_id;
    assert(mi != mj);
    if spec_composite_id(table.extension_id, mi) == spec_composite_id(table.extension_id, mj) {
        lemma_composite_id_injective(table.extension_id, mi, table.extension_id, mj);
    }
}

/// A successful handler value completes the call under return code
/// zero with exactly the value's response payload written, provided the
/// payload fits the guest buffer; an oversized payload is a fatal
/// encoding failure with nothing written.
pub proof fn lemma_success_encodes_value(
    desc: &MethodDescriptor,
    v: OutputValue,
    out_capacity: usize,
)
    ensures
        spec_response_payload(&desc.taxonomy, Ok::<OutputValue, ErrorValue>(v)).len()
            <= out_capacity ==> spec_finish_verdict(
            desc,
            Ok::<OutputValue, ErrorValue>(v),
            out_capacity,
        ) == (
            Ok::<RetVal, CriticalError>(RetVal::Converging(0)),
            Some(spec_response_payload(&desc.taxonomy, Ok::<OutputValue, ErrorValue>(v))),
        ),
        spec_response_payload(&desc.taxonomy, Ok::<OutputValue, ErrorValue>(v)).len()
            > out_capacity ==> {
            &&& spec_finish_verdict(desc, Ok::<OutputValue, ErrorValue>(v), out_capacity).0
                == Err::<RetVal, CriticalError>(CriticalError::BufferTooSmall)
            &&& spec_finish_verdict(desc, Ok::<OutputValue, ErrorValue>(v), out_capacity).1 is None
        },
{
}

/// A critical handler error propagates as its fatal value and nothing
/// is written to the output buffer.
pub proof fn lemma_critical_propagates(
    desc: &MethodDescriptor,
    e: ErrorValue,
    c: CriticalError,
    out_capacity: usize,
)
    requires
        e.critical_payload == Some(c),
    ensures
        spec_finish_verdict(desc, Err::<OutputValue, ErrorValue>(e), out_capacity).0 == Err::<
            RetVal,
            CriticalError,
        >(c),
        spec_finish_verdict(desc, Err::<OutputValue, ErrorValue>(e), out_capacity).1 is None,
{
}

/// A recoverable error with a declared status-code mapping
/// short-circuits: the response carries the mapped code and a payload
/// of length zero.
pub proof fn lemma_status_code_short_circuit(
    desc: &MethodDescriptor,
    e: ErrorValue,
    code: u32,
    out_capacity: usize,
)
    requires
        e.critical_payload is None,
        desc.uses_ret_val,
        spec_ret_val_of(&desc.taxonomy, e.variant as int) == Some(code),
    ensures
        spec_finish_verdict(desc, Err::<OutputValue, ErrorValue>(e), out_capacity).0 == Ok::<
            RetVal,
            CriticalError,
        >(RetVal::Converging(code)),
        spec_finish_verdict(desc, Err::<OutputValue, ErrorValue>(e), out_capacity).1 is None,
{
}

/// Whether a verdict carries a nonzero converging code.
pub open spec fn spec_is_nonzero_code(r: Result<RetVal, CriticalError>) -> bool {
    r matches Ok(v) && v->0 != 0
}

/// A nonzero converging code always comes from the method's declared
/// status-code mappings.
proof fn lemma_nonzero_code_is_mapped(
    desc: &MethodDescriptor,
    result: Result<OutputValue, ErrorValue>,
    out_capacity: usize,
    r: Result<RetVal, CriticalError>,
)
    requires
        r == spec_finish_verdict(desc, result, out_capacity).0,
        spec_is_nonzero_code(r),
    ensures
        spec_taxonomy_maps_code(&desc.taxonomy, r->Ok_0->0),
{
    let e = result->Err_0;
    assert(spec_ret_val_of(&desc.taxonomy, e.variant as int) is Some);
    assert(desc.taxonomy.spec_variants()[e.variant as int].ret_val == Some(r->Ok_0->0));
}

} // verus!
