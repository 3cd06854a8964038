//! The two-tier error model.
//!
//! A method may declare an error type. Each declared variant is either
//! ordinary, or marked critical (at most one per type, carrying a fatal
//! host-level error), or mapped to a small status code that bypasses
//! payload encoding. A declaration is validated once; classification of
//! a returned error then splits it into a recoverable value, encoded and
//! handed back to the guest, or a critical value that aborts the call.

use vstd::prelude::*;
use crate::codec::OutputValue;

verus! {

/// A fatal host-level condition. Critical errors abort the whole call
/// chain and are never written into the shared output buffer.
#[derive(Clone, Copy, Debug, PartialEq, Eq, Structural)]
pub enum CriticalError {
    /// The composite call identifier matched no registered method.
    InvalidFunctionId,
    /// An input buffer could not be decoded at the declared shape.
    DecodingFailed,
    /// The response payload did not fit the guest-supplied buffer.
    BufferTooSmall,
    /// A weight charge exceeded the remaining budget.
    Exhausted,
    /// The call was made from a forbidden origin.
    BadOrigin,
}

/// A dispatcher verdict handed back to the host runtime: the call
/// converged with a return code. Code zero accompanies an encoded
/// payload; any other code is a declared status-code mapping with no
/// payload.
#[derive(Clone, Copy, Debug, PartialEq, Eq, Structural)]
pub enum RetVal {
    Converging(u32),
}

/// One declared variant of a method's error type.
#[derive(Clone, Copy, Debug)]
pub struct ErrorVariantDecl {
    /// Whether the variant is marked critical.
    pub critical: bool,
    /// The variant's status-code mapping, when declared.
    pub ret_val: Option<u32>,
}

/// A rejected error-type declaration.
#[derive(Clone, Copy, Debug, PartialEq, Eq, Structural)]
pub enum DeclError {
    /// A second variant was marked critical.
    MultipleCritical,
    /// A variant lacks a status-code mapping although an earlier variant
    /// has one and mappings are required throughout.
    MissingRetVal,
    /// Two variants share one status-code value.
    DuplicateRetVal,
    /// More variants than the one-byte wire tag can tell apart.
    TooManyVariants,
}

/// The default for whether every variant after the first mapped one must
/// carry a status-code mapping.
pub fn default_require_ret_val() -> (r: bool)
    ensures
        r,
{
    true
}

/// Whether two declared variants share a status-code value.
pub open spec fn spec_has_duplicate_ret_vals(vs: Seq<ErrorVariantDecl>) -> bool {
    exists|i: int, j: int|
        0 <= i < j < vs.len() && vs[i].ret_val is Some && vs[j].ret_val is Some && vs[i].ret_val
            == vs[j].ret_val
}

/// The declaration-scan error raised at variant `i`, if any: a second
/// critical marker, else a missing mapping after an earlier mapped
/// variant when mappings are required.
pub open spec fn spec_scan_error_at(
    vs: Seq<ErrorVariantDecl>,
    require_ret_val: bool,
    i: int,
) -> Option<DeclError> {
    if vs[i].critical && (exists|j: int| 0 <= j < i && vs[j].critical) {
        Some(DeclError::MultipleCritical)
    } else if require_ret_val && vs[i].ret_val is None && (exists|j: int|
        0 <= j < i && vs[j].ret_val is Some) {
        Some(DeclError::MissingRetVal)
    } else {
        None
    }
}

/// The first declaration-scan error at or after variant `i`, if any.
pub open spec fn spec_scan_from(
    vs: Seq<ErrorVariantDecl>,
    require_ret_val: bool,
    i: int,
) -> Option<DeclError>
    decreases vs.len() - i,
{
    if i >= vs.len() {
        None
    } else if spec_scan_error_at(vs, require_ret_val, i) is Some {
        spec_scan_error_at(vs, require_ret_val, i)
    } else {
        spec_scan_from(vs, require_ret_val, i + 1)
    }
}

/// A clean scan leaves no error at any later position.
proof fn lemma_scan_clean(vs: Seq<ErrorVariantDecl>, require_ret_val: bool, i: int, k: int)
    requires
        spec_scan_from(vs, require_ret_val, i) is None,
        i <= k < vs.len(),
    ensures
        spec_scan_error_at(vs, require_ret_val, k) is None,
    decreases k - i,
{
    if i < k {
        lemma_scan_clean(vs, require_ret_val, i + 1, k);
    }
}

/// What a whole declaration validates to: an oversized variant list,
/// else the first scan error, else a duplicate-mapping error, else
/// acceptance.
pub open spec fn spec_validate_decl(
    vs: Seq<ErrorVariantDecl>,
    require_ret_val: bool,
) -> Option<DeclError> {
    if vs.len() > 255 {
        Some(DeclError::TooManyVariants)
    } else if spec_scan_from(vs, require_ret_val, 0) is Some {
        spec_scan_from(vs, require_ret_val, 0)
    } else if spec_has_duplicate_ret_vals(vs) {
        Some(DeclError::DuplicateRetVal)
    } else {
        None
    }
}

/// Whether some value occurs at two positions of a sequence.
pub open spec fn spec_has_repeated_value(s: Seq<u32>) -> bool {
    exists|i: int, j: int| 0 <= i < j < s.len() && s[i] == s[j]
}

/// Relies on `itertools::Itertools::duplicates`: the adaptor yields
/// exactly the values that occur more than once in the iteration.
#[verifier::external_body]
fn has_duplicate_values(values: &Vec<u32>) -> (r: bool)
    ensures
        r == spec_has_repeated_value(values@),
{
    itertools::Itertools::duplicates(values.iter()).next().is_some()
}

/// A validated error-type declaration: the variants of one method's
/// error type, with at most one critical variant and pairwise distinct
/// status-code mappings.
#[derive(Debug)]
pub struct ErrorTaxonomy {
    variants: Vec<ErrorVariantDecl>,
}

impl ErrorTaxonomy {
    /// The declared variants.
    pub closed spec fn spec_variants(&self) -> Seq<ErrorVariantDecl> {
        self.variants@
    }

    /// The variants fit the one-byte wire tag, at most one is critical,
    /// and status-code values are pairwise distinct.
    pub open spec fn wf(&self) -> bool {
        &&& self.spec_variants().len() <= 255
        &&& forall|i: int, j: int|
            0 <= i < j < self.spec_variants().len() && self.spec_variants()[i].critical
                ==> !self.spec_variants()[j].critical
        &&& !spec_has_duplicate_ret_vals(self.spec_variants())
    }

    /// The taxonomy of a method with no declared error type.
    pub fn empty() -> (r: Self)
        ensures
            r.spec_variants().len() == 0,
            r.wf(),
    {
        ErrorTaxonomy { variants: Vec::new() }
    }

    /// Whether the method declares an error type at all.
    pub fn declares_errors(&self) -> (r: bool)
        ensures
            r == (self.spec_variants().len() > 0),
    {
        self.variants.len() > 0
    }

    /// The number of declared variants.
    pub fn variant_count(&self) -> (r: usize)
        ensures
            r == self.spec_variants().len(),
    {
        self.variants.len()
    }

    /// Validate a declaration, in declaration order: the variants must
    /// fit the one-byte wire tag; a second critical variant is
    /// rejected; once a variant carries a status-code mapping and
    /// mappings are required, every later variant must carry one;
    /// finally no two mappings may share a value.
    pub fn validate(variants: Vec<ErrorVariantDecl>, require_ret_val: bool) -> (r: Result<
        ErrorTaxonomy,
        DeclError,
    >)
        ensures
            match r {
                Ok(t) => {
                    &&& t.spec_variants() == variants@
                    &&& t.wf()
                    &&& spec_validate_decl(variants@, require_ret_val) is None
                },
                Err(e) => spec_validate_decl(variants@, require_ret_val) == Some(e),
            },
    {
        let n = variants.len();
        if n > 255 {
            return Err(DeclError::TooManyVariants);
        }
        let mut seen_critical = false;
        let mut seen_ret_val = false;
        let mut ret_vals: Vec<u32> = Vec::new();
        let ghost mut decl_idx: Seq<int> = Seq::empty();
        let mut i: usize = 0;
        while i < n
            invariant
                n == variants@.len(),
                n <= 255,
                i <= n,
                spec_scan_from(variants@, require_ret_val, 0) == spec_scan_from(
                    variants@,
                    require_ret_val,
                    i as int,
                ),
                seen_critical == exists|j: int| 0 <= j < i && variants@[j].critical,
                seen_ret_val == exists|j: int| 0 <= j < i && variants@[j].ret_val is Some,
                decl_idx.len() == ret_vals@.len(),
                forall|k: int| #![trigger decl_idx[k]]
                    0 <= k < decl_idx.len() ==> 0 <= decl_idx[k] < i && variants@[decl_idx[k]].ret_val
                        == Some(ret_vals@[k]),
                forall|k1: int, k2: int| #![trigger decl_idx[k1], decl_idx[k2]]
                    0 <= k1 < k2 < decl_idx.len() ==> decl_idx[k1] < decl_idx[k2],
                forall|j: int| #![trigger variants@[j]]
                    0 <= j < i && variants@[j].ret_val is Some ==> exists|k: int|
                        0 <= k < decl_idx.len() && decl_idx[k] == j,
            decreases n - i,
        {
            let d = variants[i];
            assert(d == variants@[i as int]);
            if d.critical {
                if seen_critical {
                    assert(spec_scan_error_at(variants@, require_ret_val, i as int) == Some(
                        DeclError::MultipleCritical,
                    ));
                    return Err(DeclError::MultipleCritical);
                }
                seen_critical = true;
            }
            match d.ret_val {
                Some(v) => {
                    let ghost old_idx = decl_idx;
                    let ghost old_vals = ret_vals@;
                    ret_vals.push(v);
                    proof {
                        decl_idx = old_idx.push(i as int);
                        assert(ret_vals@ == old_vals.push(v));
                        assert(variants@[i as int].ret_val == Some(v));
                        assert forall|k: int| #![trigger decl_idx[k]]
                            0 <= k < decl_idx.len() implies 0 <= decl_idx[k] < i + 1
                            && variants@[decl_idx[k]].ret_val == Some(ret_vals@[k]) by {
                            if k < old_idx.len() {
                                assert(decl_idx[k] == old_idx[k]);
                                assert(ret_vals@[k] == old_vals[k]);
                                assert(0 <= old_idx[k] < i);
                            } else {
                                assert(decl_idx[k] == i as int);
                                assert(ret_vals@[k] == v);
                            }
                        }
                        assert forall|k1: int, k2: int| #![trigger decl_idx[k1], decl_idx[k2]]
                            0 <= k1 < k2 < decl_idx.len() implies decl_idx[k1] < decl_idx[k2] by {
                            assert(decl_idx[k1] == old_idx[k1]);
                            assert(0 <= old_idx[k1] < i);
                            if k2 < old_idx.len() {
                                assert(decl_idx[k2] == old_idx[k2]);
                                assert(old_idx[k1] < old_idx[k2]);
                            } else {
                                assert(decl_idx[k2] == i as int);
                            }
                        }
                        assert forall|j: int| #![trigger variants@[j]]
                            0 <= j < i + 1 && variants@[j].ret_val is Some implies exists|k: int|
                            0 <= k < decl_idx.len() && decl_idx[k] == j by {
                            if j < i {
                                let k0 = choose|k: int| 0 <= k < old_idx.len() && old_idx[k] == j;
                                assert(decl_idx[k0] == old_idx[k0]);
                                assert(0 <= k0 < decl_idx.len() && decl_idx[k0] == j);
                            } else {
                                let k0 = decl_idx.len() - 1;
                                assert(0 <= k0 < decl_idx.len() && decl_idx[k0] == j);
                            }
                        }
                    }
                    seen_ret_val = true;
                },
                None => {
                    if require_ret_val && seen_ret_val {
                        assert(spec_scan_error_at(variants@, require_ret_val, i as int) == Some(
                            DeclError::MissingRetVal,
                        ));
                        return Err(DeclError::MissingRetVal);
                    }
                },
            }
            assert(spec_scan_error_at(variants@, require_ret_val, i as int) is None);
            i = i + 1;
        }
        if has_duplicate_values(&ret_vals) {
            assert(spec_has_duplicate_ret_vals(variants@)) by {
                let (k1, k2) = choose|k1: int, k2: int|
                    0 <= k1 < k2 < ret_vals@.len() && ret_vals@[k1] == ret_vals@[k2];
                let d1 = decl_idx[k1];
                let d2 = decl_idx[k2];
                assert(0 <= d1 < d2 < variants@.len());
                assert(variants@[d1].ret_val == Some(ret_vals@[k1]));
                assert(variants@[d2].ret_val == Some(ret_vals@[k2]));
                assert(0 <= d1 < d2 < variants@.len() && variants@[d1].ret_val is Some
                    && variants@[d2].ret_val is Some && variants@[d1].ret_val
                    == variants@[d2].ret_val);
            }
            return Err(DeclError::DuplicateRetVal);
        }
        proof {
            assert(!spec_has_duplicate_ret_vals(variants@)) by {
                if spec_has_duplicate_ret_vals(variants@) {
                    let (i1, i2) = choose|i1: int, i2: int|
                        0 <= i1 < i2 < variants@.len() && variants@[i1].ret_val is Some
                            && variants@[i2].ret_val is Some && variants@[i1].ret_val
                            == variants@[i2].ret_val;
                    assert(exists|k: int| 0 <= k < decl_idx.len() && decl_idx[k] == i1);
                    assert(exists|k: int| 0 <= k < decl_idx.len() && decl_idx[k] == i2);
                    let k1 = choose|k: int| 0 <= k < decl_idx.len() && decl_idx[k] == i1;
                    let k2 = choose|k: int| 0 <= k < decl_idx.len() && decl_idx[k] == i2;
                    assert(variants@[decl_idx[k1]].ret_val == Some(ret_vals@[k1]));
                    assert(variants@[decl_idx[k2]].ret_val == Some(ret_vals@[k2]));
                    assert(ret_vals@[k1] == ret_vals@[k2]);
                    if k1 < k2 {
                        assert(spec_has_repeated_value(ret_vals@));
                        assert(false);
                    } else if k2 < k1 {
                        assert(decl_idx[k2] < decl_idx[k1]);
                        assert(false);
                    } else {
                        assert(false);
                    }
                }
            }
            assert forall|i1: int, j1: int|
                0 <= i1 < j1 < variants@.len() && variants@[i1].critical implies !variants@[j1].critical by {
                if variants@[j1].critical {
                    lemma_scan_clean(variants@, require_ret_val, 0, j1);
                }
            }
        }
        Ok(ErrorTaxonomy { variants })
    }

    /// The status-code mapping of one declared variant, when the index
    /// is in range and the variant is mapped.
    pub fn ret_val_of(&self, variant: usize) -> (r: Option<u32>)
        ensures
            r == spec_ret_val_of(self, variant as int),
    {
        if variant < self.variants.len() {
            self.variants[variant].ret_val
        } else {
            None
        }
    }
}

/// The status-code mapping a taxonomy gives to a variant index: the
/// declared value for a mapped in-range variant, nothing otherwise.
pub open spec fn spec_ret_val_of(tax: &ErrorTaxonomy, variant: int) -> Option<u32> {
    if 0 <= variant < tax.spec_variants().len() {
        tax.spec_variants()[variant].ret_val
    } else {
        None
    }
}

/// Whether some variant of the taxonomy maps to this status code.
pub open spec fn spec_taxonomy_maps_code(tax: &ErrorTaxonomy, code: u32) -> bool {
    exists|i: int|
        0 <= i < tax.spec_variants().len() && (#[trigger] tax.spec_variants()[i]).ret_val == Some(
            code,
        )
}

/// A runtime value of a method's declared error type: the variant it
/// holds, and the fatal payload when that variant is the critical one.
#[derive(Clone, Copy, Debug, PartialEq, Eq)]
pub struct ErrorValue {
    /// Index of the variant within the declared error type.
    pub variant: usize,
    /// The carried fatal error, present exactly on the critical variant.
    pub critical_payload: Option<CriticalError>,
}

impl ErrorValue {
    /// The value is a variant of the taxonomy, and carries a fatal
    /// payload exactly when that variant is marked critical.
    pub open spec fn wf_for(&self, tax: &ErrorTaxonomy) -> bool {
        &&& (self.variant as int) < tax.spec_variants().len()
        &&& self.critical_payload is Some <==> tax.spec_variants()[self.variant as int].critical
    }
}

/// An error type with a designated critical variant: extracting the
/// fatal value succeeds exactly on that variant.
pub trait SupportCriticalError: Sized {
    /// The fatal value the error holds, if it is the critical variant.
    spec fn spec_critical(&self) -> Option<CriticalError>;

    /// Convert the error to a critical one, or give it back unchanged.
    fn try_to_critical(self) -> (r: Result<CriticalError, Self>)
        ensures
            self.spec_critical() matches Some(c) ==> r == Ok::<CriticalError, Self>(c),
            self.spec_critical() is None ==> r == Err::<CriticalError, Self>(self),
    ;
}

impl SupportCriticalError for ErrorValue {
    open spec fn spec_critical(&self) -> Option<CriticalError> {
        self.critical_payload
    }

    fn try_to_critical(self) -> (r: Result<CriticalError, Self>) {
        match self.critical_payload {
            Some(c) => Ok(c),
            None => Err(self),
        }
    }
}

/// Split a handler result: a critical error propagates as the fatal
/// value, anything else is handed back for ordinary treatment.
pub fn to_critical_error<T, E: SupportCriticalError>(result: Result<T, E>) -> (r: Result<
    Result<T, E>,
    CriticalError,
>)
    ensures
        match result {
            Ok(v) => r == Ok::<Result<T, E>, CriticalError>(Ok::<T, E>(v)),
            Err(e) => match e.spec_critical() {
                Some(c) => r == Err::<Result<T, E>, CriticalError>(c),
                None => r == Ok::<Result<T, E>, CriticalError>(Err::<T, E>(e)),
            },
        },
{
    match result {
        Ok(v) => Ok(Ok(v)),
        Err(e) => match e.try_to_critical() {
            Ok(c) => Err(c),
            Err(e) => Ok(Err(e)),
        },
    }
}

/// The classification of one handler outcome.
#[derive(Clone, Copy, Debug, PartialEq, Eq)]
pub enum Outcome {
    /// The handler succeeded; the value is encoded and returned.
    Success(OutputValue),
    /// The handler failed recoverably; the undestructured error is
    /// encoded and returned, or short-circuited to a status code.
    Recoverable(ErrorValue),
    /// The handler failed fatally; the call chain is torn down.
    Critical(CriticalError),
}

/// What classification yields for each handler outcome.
pub open spec fn spec_classify(result: Result<OutputValue, ErrorValue>) -> Outcome {
    match result {
        Ok(v) => Outcome::Success(v),
        Err(e) => match e.critical_payload {
            Some(c) => Outcome::Critical(c),
            None => Outcome::Recoverable(e),
        },
    }
}

/// Classification follows the declaration: a value of the taxonomy's
/// critical variant classifies as critical, carrying its fatal payload,
/// and a value of any other variant classifies as recoverable, carrying
/// the undestructured error.
pub proof fn lemma_classify_follows_taxonomy(tax: &ErrorTaxonomy, e: ErrorValue)
    requires
        e.wf_for(tax),
    ensures
        tax.spec_variants()[e.variant as int].critical ==> spec_classify(
            Err::<OutputValue, ErrorValue>(e),
        ) == Outcome::Critical(e.critical_payload->0),
        !tax.spec_variants()[e.variant as int].critical ==> spec_classify(
            Err::<OutputValue, ErrorValue>(e),
        ) == Outcome::Recoverable(e),
{
}

/// Classify a handler outcome: a value of the critical variant yields
/// `Critical`, every other error yields `Recoverable`.
pub fn classify(result: Result<OutputValue, ErrorValue>) -> (r: Outcome)
    ensures
        r == spec_classify(result),
{
    match result {
        Ok(v) => Outcome::Success(v),
        Err(e) => match e.critical_payload {
            Some(c) => Outcome::Critical(c),
            None => Outcome::Recoverable(e),
        },
    }
}

} // verus!
