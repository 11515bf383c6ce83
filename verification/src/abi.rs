//! The decisions of the versioned C ABI v0: result codes, the last-error
//! diagnostic, header and buffer validation, and the parsing of wire deeds.
//!
//! The host keeps one [`LastError`] per thread and hands it to the functions
//! here; the C records themselves (with their binary32 fields) live with the
//! host, which passes their fields as plain values.
use crate::deed::{BatchError, DirectWitnessDeed, DirectWitnessOutcome, DirectWitnessSubmission};
use crate::evaluation::{EvaluationResult, MemoryDecision};
use crate::memory::{MemoryKind, MemoryRecord};
use crate::pad::Pad;
use crate::relationship::{RelationshipLayer, RelationshipLookup, RelationshipSubject};
use crate::simulation::{Error, FactionId, MemberId, Simulation, SimulationEvent};
use crate::values::Affinity;
use crate::values::{validated, Aggression, Impact, ValueError};
use crate::binary32::{MINUS_ONE_BITS, ONE_BITS, POSITIVE_ZERO_BITS};
use vstd::prelude::*;
use vstd::string::StrSliceExecFns;
use vstd::utf8::{decode_utf8, encode_utf8, valid_utf8};

verus! {

/// A C ABI result code.
pub type PfResult = i32;

pub const PF_OK: PfResult = 0;

pub const PF_INVALID_ARGUMENT: PfResult = 1;

pub const PF_NOT_FOUND: PfResult = 2;

pub const PF_INVALID_STATE: PfResult = 3;

pub const PF_BUFFER_TOO_SMALL: PfResult = 4;

pub const PF_SERIALIZATION_ERROR: PfResult = 5;

pub const PF_VERSION_MISMATCH: PfResult = 6;

pub const PF_INTERNAL_ERROR: PfResult = 255;

pub const PF_ABI_VERSION: u32 = 0;

pub const PF_MODEL_VERSION: u32 = 1;

pub const PF_SUBMISSION_APPLIED: u32 = 1;

pub const PF_SUBMISSION_DUPLICATE: u32 = 2;

pub const PF_RELATIONSHIP_MEMBER_TO_MEMBER: u32 = 1;

pub const PF_RELATIONSHIP_FACTION_TO_MEMBER: u32 = 2;

pub const PF_RELATIONSHIP_FACTION_TO_FACTION: u32 = 3;

pub const PF_MEMORY_SHORT_TERM: u32 = 1;

pub const PF_MEMORY_LONG_TERM: u32 = 2;

pub const PF_MEMORY_NONE: u32 = 0;

pub const PF_MEMORY_DECISION_SHORT_TERM: u32 = 1;

pub const PF_MEMORY_DECISION_LONG_TERM: u32 = 2;

pub const PF_EVENT_FACTION_ADDED: u32 = 1;

pub const PF_EVENT_MEMBER_ADDED: u32 = 2;

pub const PF_EVENT_RELATIONSHIP_CHANGED: u32 = 3;

pub const PF_EVENT_DEED_EVALUATED: u32 = 4;

pub const PF_EVENT_AFFINITY_CHANGED: u32 = 5;

pub const PF_EVENT_PAD_CHANGED: u32 = 6;

pub const PF_EVENT_MEMORY_REMEMBERED: u32 = 7;

pub const PF_EVENT_MEMORY_UPGRADED: u32 = 8;

pub const PF_EVENT_MEMORY_EXPIRED: u32 = 9;

pub const PF_EVENT_TIME_ADVANCED: u32 = 10;

/// The diagnostic message of the last failed ABI call on one thread, as UTF-8 bytes.
pub struct LastError {
    message: Vec<u8>,
}

/// The `Debug` text of an error, as `format!("{error:?}")` writes it.
pub uninterp spec fn error_debug_text(error: Error) -> Seq<char>;

/// The ASCII digit for `d` (below ten).
pub open spec fn digit(d: nat) -> char {
    (48 + d) as char
}

/// The decimal digits of `n`, most significant first, with no leading zero,
/// as `Display` writes an unsigned integer.
pub open spec fn decimal(n: nat) -> Seq<char>
    decreases n,
{
    if n < 10 {
        seq![digit(n)]
    } else {
        decimal(n / 10).push(digit(n % 10))
    }
}

/// The message of a failed batch item: `batch index `, the item's index in
/// decimal, `: `, and the error's `Debug` text.
pub open spec fn batch_failure_text(index: usize, error: Error) -> Seq<char> {
    "batch index "@ + decimal(index as nat) + ": "@ + error_debug_text(error)
}

/// The `Debug` text of an error.
///
/// Trusted: `format!` with `{:?}` on the derived `Debug` impl; the contract
/// claims only that the text depends on nothing but the error.
#[verifier::external_body]
fn debug_text(error: &Error) -> (r: String)
    ensures
        r@ == error_debug_text(*error),
{
    format!("{error:?}")
}

/// The message of a failed batch item.
///
/// Trusted: `format!("batch index {}: {:?}", ..)` on a `usize` and the
/// derived `Debug` impl. The contract claims that the text is the literal
/// parts with the index in decimal (`Display` of an unsigned integer) and the
/// same `Debug` text that `debug_text` gives between them.
#[verifier::external_body]
fn batch_text(index: usize, error: &Error) -> (r: String)
    ensures
        r@ == batch_failure_text(index, *error),
{
    format!("batch index {}: {:?}", index, error)
}

impl LastError {
    /// The message, as UTF-8 bytes.
    pub closed spec fn bytes(&self) -> Seq<u8> {
        self.message@
    }

    /// No message.
    pub fn new() -> (r: Self)
        ensures
            r.bytes() == Seq::<u8>::empty(),
    {
        LastError { message: Vec::new() }
    }
}

/// Forgets the last message.
pub fn clear_last_error(slot: &mut LastError)
    ensures
        final(slot).bytes() == Seq::<u8>::empty(),
{
    slot.message = Vec::new();
}

/// Replaces the last message.
pub fn set_last_error(slot: &mut LastError, message: &str)
    ensures
        final(slot).bytes() == encode_utf8(message@),
{
    slot.message = message.as_bytes_vec();
}

/// A copy of the last message.
pub fn last_error_bytes(slot: &LastError) -> (r: Vec<u8>)
    ensures
        r@ == slot.bytes(),
{
    slot.message.clone()
}

/// Records `message` and returns `PF_INVALID_ARGUMENT`.
pub fn invalid_argument(slot: &mut LastError, message: &str) -> (r: PfResult)
    ensures
        r == PF_INVALID_ARGUMENT,
        final(slot).bytes() == encode_utf8(message@),
{
    set_last_error(slot, message);
    PF_INVALID_ARGUMENT
}

/// Records `message` and returns `PF_NOT_FOUND`.
pub fn not_found(slot: &mut LastError, message: &str) -> (r: PfResult)
    ensures
        r == PF_NOT_FOUND,
        final(slot).bytes() == encode_utf8(message@),
{
    set_last_error(slot, message);
    PF_NOT_FOUND
}

/// Records `message` and returns `PF_BUFFER_TOO_SMALL`.
pub fn buffer_too_small(slot: &mut LastError, message: &str) -> (r: PfResult)
    ensures
        r == PF_BUFFER_TOO_SMALL,
        final(slot).bytes() == encode_utf8(message@),
{
    set_last_error(slot, message);
    PF_BUFFER_TOO_SMALL
}

/// Records the ABI version diagnostic and returns `PF_VERSION_MISMATCH`.
pub fn version_mismatch(slot: &mut LastError) -> (r: PfResult)
    ensures
        r == PF_VERSION_MISMATCH,
        final(slot).bytes() == encode_utf8("unsupported ABI version"@),
{
    set_last_error(slot, "unsupported ABI version");
    PF_VERSION_MISMATCH
}

/// The result code of a core error.
pub open spec fn core_error_code(error: Error) -> PfResult {
    match error {
        Error::EmptyName | Error::ActorTargetSame(_) | Error::Value(_) => PF_INVALID_ARGUMENT,
        Error::FactionNotFound(_) | Error::MemberNotFound(_) => PF_NOT_FOUND,
        Error::TimeWentBackwards { .. } | Error::TimeOverflow => PF_INVALID_STATE,
    }
}

/// The result code of a core error: invalid input, unknown entity, or a
/// state the command cannot move from.
pub fn map_core_error(error: &Error) -> (r: PfResult)
    ensures
        r == core_error_code(*error),
{
    match error {
        Error::EmptyName | Error::ActorTargetSame(_) | Error::Value(_) => PF_INVALID_ARGUMENT,
        Error::FactionNotFound(_) | Error::MemberNotFound(_) => PF_NOT_FOUND,
        Error::TimeWentBackwards { .. } | Error::TimeOverflow => PF_INVALID_STATE,
    }
}

/// Records the error's `Debug` text and returns its result code.
pub fn fail_core(slot: &mut LastError, error: &Error) -> (r: PfResult)
    ensures
        r == core_error_code(*error),
        final(slot).bytes() == encode_utf8(error_debug_text(*error)),
{
    let result = map_core_error(error);
    let text = debug_text(error);
    set_last_error(slot, text.as_str());
    result
}

/// Records which batch item failed and why, and returns the item's result code.
pub fn fail_batch(slot: &mut LastError, error: &BatchError) -> (r: PfResult)
    ensures
        r == core_error_code(error.error_of()),
        final(slot).bytes() == encode_utf8(batch_failure_text(error.index_of(), error.error_of())),
{
    let result = map_core_error(error.error());
    let text = batch_text(error.index(), error.error());
    set_last_error(slot, text.as_str());
    result
}

/// A count as a C `uint32_t`; a count beyond its range is an internal error.
pub fn checked_u32(slot: &mut LastError, value: usize) -> (r: Result<u32, PfResult>)
    ensures
        value <= u32::MAX ==> r == Ok::<u32, PfResult>(value as u32) && *final(slot) == *old(slot),
        value > u32::MAX ==> r == Err::<u32, PfResult>(PF_INTERNAL_ERROR) && final(slot).bytes()
            == encode_utf8("result count exceeds the C ABI uint32 range"@),
{
    if value <= 0xFFFF_FFFFusize {
        Ok(value as u32)
    } else {
        set_last_error(slot, "result count exceeds the C ABI uint32 range");
        Err(PF_INTERNAL_ERROR)
    }
}

/// Checks an output array of `count` elements laid out `element_size` bytes
/// apart: empty arrays always pass; otherwise the stride must hold the v0
/// element, keep its alignment, and the whole array must fit the address space.
pub fn validate_array_stride(
    slot: &mut LastError,
    count: u32,
    element_size: u32,
    expected_size: u32,
    alignment: u32,
) -> (r: Result<(), PfResult>)
    ensures
        count == 0 ==> r == Ok::<(), PfResult>(()) && *final(slot) == *old(slot),
        count != 0 && element_size < expected_size ==> r == Err::<(), PfResult>(
            PF_INVALID_ARGUMENT,
        ) && final(slot).bytes() == encode_utf8(
            "array element size is smaller than the v0 type"@,
        ),
        count != 0 && element_size >= expected_size && (alignment == 0 || element_size % alignment
            != 0) ==> r == Err::<(), PfResult>(PF_INVALID_ARGUMENT) && final(slot).bytes()
            == encode_utf8("array element size is not correctly aligned"@),
        count != 0 && element_size >= expected_size && alignment != 0 && element_size % alignment
            == 0 ==> if count * element_size > usize::MAX {
            r == Err::<(), PfResult>(PF_INVALID_ARGUMENT) && final(slot).bytes() == encode_utf8(
                "array byte size overflows the host address space"@,
            )
        } else {
            r == Ok::<(), PfResult>(()) && *final(slot) == *old(slot)
        },
{
    if count == 0 {
        return Ok(());
    }
    if element_size < expected_size {
        return Err(invalid_argument(slot, "array element size is smaller than the v0 type"));
    }
    if alignment == 0 || element_size % alignment != 0 {
        return Err(invalid_argument(slot, "array element size is not correctly aligned"));
    }
    match (count as usize).checked_mul(element_size as usize) {
        Some(_) => Ok(()),
        None => Err(invalid_argument(slot, "array byte size overflows the host address space")),
    }
}

/// The size of a type, as a C `uint32_t`.
pub fn expected_size<T>() -> (r: u32)
    ensures
        r == vstd::layout::size_of::<T>() as u32,
{
    #[verifier::truncate]
    (core::mem::size_of::<T>() as u32)
}

/// Checks the header of an input record: the ABI version must be v0 and the
/// record at least as large as the v0 type.
pub fn validate_input_header(
    slot: &mut LastError,
    struct_size: u32,
    api_version: u32,
    expected_size: u32,
) -> (r: Result<(), PfResult>)
    ensures
        api_version != PF_ABI_VERSION ==> r == Err::<(), PfResult>(PF_VERSION_MISMATCH)
            && final(slot).bytes() == encode_utf8("unsupported ABI version"@),
        api_version == PF_ABI_VERSION && struct_size < expected_size ==> r == Err::<(), PfResult>(
            PF_INVALID_ARGUMENT,
        ) && final(slot).bytes() == encode_utf8("struct_size is smaller than the v0 type"@),
        api_version == PF_ABI_VERSION && struct_size >= expected_size ==> r == Ok::<(), PfResult>(
            (),
        ) && *final(slot) == *old(slot),
{
    if api_version != PF_ABI_VERSION {
        return Err(version_mismatch(slot));
    }
    if struct_size < expected_size {
        return Err(invalid_argument(slot, "struct_size is smaller than the v0 type"));
    }
    Ok(())
}

/// Checks that an output buffer can hold the v0 type.
pub fn validate_output_size(slot: &mut LastError, out_size: u32, expected_size: u32) -> (r: Result<
    (),
    PfResult,
>)
    ensures
        out_size < expected_size ==> r == Err::<(), PfResult>(PF_INVALID_ARGUMENT)
            && final(slot).bytes() == encode_utf8("output buffer is smaller than the v0 type"@),
        out_size >= expected_size ==> r == Ok::<(), PfResult>(()) && *final(slot) == *old(slot),
{
    if out_size < expected_size {
        return Err(invalid_argument(slot, "output buffer is smaller than the v0 type"));
    }
    Ok(())
}

/// The fields of a C ABI direct-witness deed record; `impact` and
/// `aggression` are binary32 patterns.
#[derive(Clone, Copy, Debug, PartialEq, Eq, Structural)]
pub struct RawDirectWitnessDeed {
    pub struct_size: u32,
    pub api_version: u32,
    pub deed_id: u64,
    pub observer: u64,
    pub actor: u64,
    pub target: u64,
    pub impact: u32,
    pub aggression: u32,
    pub has_target: u8,
    pub threatens_observer: u8,
}

/// Whether a wire deed passes every check of `parse_deed` (given the v0
/// record size): v0 header, booleans that are 0 or 1, no target identifier
/// without a target, and a finite impact in `[-1, 1]` and aggression in `[0, 1]`.
pub open spec fn wire_deed_is_valid(raw: RawDirectWitnessDeed, expected_size: u32) -> bool {
    &&& raw.api_version == PF_ABI_VERSION
    &&& raw.struct_size >= expected_size
    &&& raw.has_target <= 1
    &&& raw.threatens_observer <= 1
    &&& !(raw.has_target == 0 && raw.target != 0)
    &&& validated(raw.impact, MINUS_ONE_BITS, ONE_BITS) is Ok
    &&& validated(raw.aggression, POSITIVE_ZERO_BITS, ONE_BITS) is Ok
}

/// The diagnostic `parse_deed` records for a wire deed that fails a check:
/// the message of the first failed header, boolean or target check, or
/// nothing (the slot is left as it was) when only a value is not finite or
/// out of range.
pub open spec fn deed_failure_message(raw: RawDirectWitnessDeed, expected_size: u32) -> Option<
    Seq<char>,
> {
    if raw.api_version != PF_ABI_VERSION {
        Some("unsupported ABI version"@)
    } else if raw.struct_size < expected_size {
        Some("struct_size is smaller than the v0 type"@)
    } else if raw.has_target > 1 || raw.threatens_observer > 1 {
        Some("boolean fields must be 0 or 1"@)
    } else if raw.has_target == 0 && raw.target != 0 {
        Some("target must be zero when has_target is zero"@)
    } else {
        None
    }
}

/// `deed` holds what the valid wire deed `raw` says.
pub open spec fn parsed_from(deed: DirectWitnessDeed, raw: RawDirectWitnessDeed) -> bool {
    &&& deed.deed_id == raw.deed_id
    &&& deed.observer@ == raw.observer
    &&& deed.actor@ == raw.actor
    &&& (raw.has_target == 1 ==> (deed.target is Some && deed.target->0@ == raw.target))
    &&& (raw.has_target == 0 ==> deed.target is None)
    &&& validated(raw.impact, MINUS_ONE_BITS, ONE_BITS) == Ok::<u32, ValueError>(deed.impact@)
    &&& validated(raw.aggression, POSITIVE_ZERO_BITS, ONE_BITS) == Ok::<u32, ValueError>(
        deed.aggression@,
    )
    &&& deed.threatens_observer == (raw.threatens_observer == 1)
}

/// Parses a wire deed. Checks run in order (header, booleans, target,
/// impact, aggression) and the first failure decides the result code.
pub fn parse_deed(slot: &mut LastError, raw: &RawDirectWitnessDeed, expected_size: u32) -> (r: Result<
    DirectWitnessDeed,
    PfResult,
>)
    ensures
        raw.api_version != PF_ABI_VERSION ==> r == Err::<DirectWitnessDeed, PfResult>(
            PF_VERSION_MISMATCH,
        ),
        raw.api_version == PF_ABI_VERSION && !wire_deed_is_valid(*raw, expected_size) ==> r
            == Err::<DirectWitnessDeed, PfResult>(PF_INVALID_ARGUMENT),
        !wire_deed_is_valid(*raw, expected_size) ==> match deed_failure_message(*raw, expected_size) {
            Some(message) => final(slot).bytes() == encode_utf8(message),
            None => *final(slot) == *old(slot),
        },
        wire_deed_is_valid(*raw, expected_size) ==> match r {
            Ok(deed) => {
                &&& deed.deed_id == raw.deed_id
                &&& deed.observer@ == raw.observer
                &&& deed.actor@ == raw.actor
                &&& (raw.has_target == 1 ==> (deed.target is Some && deed.target->0@ == raw.target))
                &&& (raw.has_target == 0 ==> deed.target is None)
                &&& validated(raw.impact, MINUS_ONE_BITS, ONE_BITS) == Ok::<u32, ValueError>(
                    deed.impact@,
                )
                &&& validated(raw.aggression, POSITIVE_ZERO_BITS, ONE_BITS) == Ok::<
                    u32,
                    ValueError,
                >(deed.aggression@)
                &&& deed.threatens_observer == (raw.threatens_observer == 1)
                &&& *final(slot) == *old(slot)
            },
            Err(_) => false,
        },
{
    match validate_input_header(slot, raw.struct_size, raw.api_version, expected_size) {
        Ok(()) => {},
        Err(code) => return Err(code),
    }
    if raw.has_target > 1 || raw.threatens_observer > 1 {
        return Err(invalid_argument(slot, "boolean fields must be 0 or 1"));
    }
    if raw.has_target == 0 && raw.target != 0 {
        return Err(invalid_argument(slot, "target must be zero when has_target is zero"));
    }
    let impact = match Impact::new(raw.impact) {
        Ok(impact) => impact,
        Err(error) => return Err(map_core_error(&Error::Value(error))),
    };
    let aggression = match Aggression::new(raw.aggression) {
        Ok(aggression) => aggression,
        Err(error) => return Err(map_core_error(&Error::Value(error))),
    };
    let target = if raw.has_target == 1 {
        Some(MemberId::from_raw(raw.target))
    } else {
        None
    };
    Ok(
        DirectWitnessDeed::new(
            raw.deed_id,
            MemberId::from_raw(raw.observer),
            MemberId::from_raw(raw.actor),
            target,
            impact,
            aggression,
            raw.threatens_observer == 1,
        ),
    )
}

/// The faction with a wire identifier.
pub fn faction_id(value: u64) -> (r: FactionId)
    ensures
        r@ == value,
{
    FactionId::from_raw(value)
}

/// The member with a wire identifier.
pub fn member_id(value: u64) -> (r: MemberId)
    ensures
        r@ == value,
{
    MemberId::from_raw(value)
}

/// The wire code of a relationship layer.
pub open spec fn relationship_layer_code(layer: RelationshipLayer) -> u32 {
    match layer {
        RelationshipLayer::MemberToMember => PF_RELATIONSHIP_MEMBER_TO_MEMBER,
        RelationshipLayer::FactionToMember => PF_RELATIONSHIP_FACTION_TO_MEMBER,
        RelationshipLayer::FactionToFaction => PF_RELATIONSHIP_FACTION_TO_FACTION,
    }
}

/// The wire code of a memory kind.
pub open spec fn memory_kind_code(kind: MemoryKind) -> u32 {
    match kind {
        MemoryKind::ShortTerm => PF_MEMORY_SHORT_TERM,
        MemoryKind::LongTerm => PF_MEMORY_LONG_TERM,
    }
}

/// The wire code of a memory decision; not remembering is `PF_MEMORY_NONE`.
pub open spec fn memory_decision_code(decision: MemoryDecision) -> u32 {
    match decision {
        MemoryDecision::NotRemembered => PF_MEMORY_NONE,
        MemoryDecision::ShortTerm => PF_MEMORY_DECISION_SHORT_TERM,
        MemoryDecision::LongTerm => PF_MEMORY_DECISION_LONG_TERM,
    }
}

/// The wire code of a relationship layer.
pub fn relationship_layer_to_c(layer: RelationshipLayer) -> (r: u32)
    ensures
        r == relationship_layer_code(layer),
{
    match layer {
        RelationshipLayer::MemberToMember => PF_RELATIONSHIP_MEMBER_TO_MEMBER,
        RelationshipLayer::FactionToMember => PF_RELATIONSHIP_FACTION_TO_MEMBER,
        RelationshipLayer::FactionToFaction => PF_RELATIONSHIP_FACTION_TO_FACTION,
    }
}

/// The wire code of a memory kind.
pub fn memory_kind_to_c(kind: MemoryKind) -> (r: u32)
    ensures
        r == memory_kind_code(kind),
{
    match kind {
        MemoryKind::ShortTerm => PF_MEMORY_SHORT_TERM,
        MemoryKind::LongTerm => PF_MEMORY_LONG_TERM,
    }
}

/// The wire code of a memory decision.
pub fn memory_decision_to_c(decision: MemoryDecision) -> (r: u32)
    ensures
        r == memory_decision_code(decision),
{
    match decision {
        MemoryDecision::NotRemembered => PF_MEMORY_NONE,
        MemoryDecision::ShortTerm => PF_MEMORY_DECISION_SHORT_TERM,
        MemoryDecision::LongTerm => PF_MEMORY_DECISION_LONG_TERM,
    }
}

/// The payload of a `PfRelationshipLookup` record; the affinity is a
/// binary32 pattern.
#[derive(Clone, Copy, Debug, PartialEq, Eq, Structural)]
pub struct WireLookup {
    pub present: u8,
    pub source: u32,
    pub affinity: u32,
}

/// The wire form of a lookup: a missing relationship is all zeros; an
/// explicit one (an explicit neutral one too) is present, with its layer's
/// code and its affinity.
pub open spec fn lookup_wire(lookup: RelationshipLookup) -> WireLookup {
    match lookup {
        RelationshipLookup::Missing => WireLookup { present: 0, source: 0, affinity: 0 },
        RelationshipLookup::Explicit { affinity, source } => WireLookup {
            present: 1,
            source: relationship_layer_code(source),
            affinity: affinity@,
        },
    }
}

/// Encodes a relationship lookup for the wire.
pub fn encode_lookup(l: RelationshipLookup) -> (r: WireLookup)
    ensures
        r == lookup_wire(l),
        l is Missing ==> r == (WireLookup { present: 0, source: 0, affinity: 0 }),
        l matches RelationshipLookup::Explicit { affinity, source } ==> r.present == 1 && r.source
            == relationship_layer_code(source) && r.affinity == affinity@,
{
    match l {
        RelationshipLookup::Missing => WireLookup { present: 0, source: 0, affinity: 0 },
        RelationshipLookup::Explicit { affinity, source } => WireLookup {
            present: 1,
            source: relationship_layer_to_c(source),
            affinity: affinity.value(),
        },
    }
}

/// The payload of a `PfEvaluationResult` record; binary32 values as patterns.
#[derive(Clone, Copy, Debug, PartialEq, Eq, Structural)]
pub struct WireEvaluation {
    pub concern: u32,
    pub effective_confidence: u32,
    pub raw_affinity_delta: u32,
    pub raw_pad_delta: Pad,
    pub event_intensity: u32,
    pub memory_salience: u32,
    pub memory_kind: u32,
}

/// The wire form of an evaluation: its values, and its memory decision's code.
pub open spec fn evaluation_wire(evaluation: EvaluationResult) -> WireEvaluation {
    WireEvaluation {
        concern: evaluation.concern_of(),
        effective_confidence: evaluation.effective_confidence_of()@,
        raw_affinity_delta: evaluation.raw_affinity_delta_of(),
        raw_pad_delta: evaluation.raw_pad_delta_of(),
        event_intensity: evaluation.event_intensity_of(),
        memory_salience: evaluation.memory_salience_of(),
        memory_kind: memory_decision_code(evaluation.memory_decision_of()),
    }
}

/// Encodes an evaluation for the wire.
pub fn encode_evaluation(evaluation: EvaluationResult) -> (r: WireEvaluation)
    ensures
        r == evaluation_wire(evaluation),
{
    WireEvaluation {
        concern: evaluation.concern(),
        effective_confidence: evaluation.effective_confidence().value(),
        raw_affinity_delta: evaluation.raw_affinity_delta(),
        raw_pad_delta: evaluation.raw_pad_delta(),
        event_intensity: evaluation.event_intensity(),
        memory_salience: evaluation.memory_salience(),
        memory_kind: memory_decision_to_c(evaluation.memory_decision()),
    }
}

/// The raw identifier of an optional target, `0` when there is none.
pub open spec fn target_id(target: Option<MemberId>) -> u64 {
    match target {
        Some(member) => member@,
        None => 0,
    }
}

/// `1` when a value is present, `0` otherwise.
pub open spec fn presence<T>(value: Option<T>) -> u8 {
    if value is Some {
        1
    } else {
        0
    }
}

fn encode_target(target: Option<MemberId>) -> (r: (u64, u8))
    ensures
        r == (target_id(target), presence(target)),
{
    match target {
        Some(member) => (member.into_raw(), 1),
        None => (0, 0),
    }
}

/// The payload of a `PfMemoryRecord` record; binary32 values as patterns.
#[derive(Clone, Copy, Debug, PartialEq, Eq, Structural)]
pub struct WireMemoryRecord {
    pub observer: u64,
    pub deed_id: u64,
    pub actor: u64,
    pub target: u64,
    pub has_target: u8,
    pub impact: u32,
    pub aggression: u32,
    pub salience: u32,
    pub kind: u32,
    pub created_tick: u64,
    pub expires_at: u64,
}

/// The wire form of a memory record: its fields, a missing target as
/// `has_target == 0` and `target == 0`, and its kind's code.
pub open spec fn memory_wire(record: MemoryRecord) -> WireMemoryRecord {
    WireMemoryRecord {
        observer: record.observer_of()@,
        deed_id: record.deed_id_of(),
        actor: record.actor_of()@,
        target: target_id(record.target_of()),
        has_target: presence(record.target_of()),
        impact: record.impact_of()@,
        aggression: record.aggression_of()@,
        salience: record.salience_of(),
        kind: memory_kind_code(record.kind_of()),
        created_tick: record.created_tick_of(),
        expires_at: record.expires_at_of(),
    }
}

/// Encodes a memory record for the wire.
pub fn encode_memory(record: MemoryRecord) -> (r: WireMemoryRecord)
    ensures
        r == memory_wire(record),
{
    let (target, has_target) = encode_target(record.target());
    WireMemoryRecord {
        observer: record.observer().into_raw(),
        deed_id: record.deed_id(),
        actor: record.actor().into_raw(),
        target,
        has_target,
        impact: record.impact().value(),
        aggression: record.aggression().value(),
        salience: record.salience(),
        kind: memory_kind_to_c(record.kind()),
        created_tick: record.created_tick(),
        expires_at: record.expires_at(),
    }
}

/// The payload of a `PfDirectWitnessOutcome` record; binary32 values as patterns.
#[derive(Clone, Copy, Debug, PartialEq, Eq, Structural)]
pub struct WireOutcome {
    pub deed_id: u64,
    pub observer: u64,
    pub actor: u64,
    pub target: u64,
    pub has_target: u8,
    pub relationship: WireLookup,
    pub evaluation: WireEvaluation,
    pub previous_affinity: u32,
    pub current_affinity: u32,
    pub previous_pad: Pad,
    pub current_pad: Pad,
    pub has_memory: u8,
    pub memory: WireMemoryRecord,
}

/// A memory record with every field zero.
pub open spec fn zero_memory() -> WireMemoryRecord {
    WireMemoryRecord {
        observer: 0,
        deed_id: 0,
        actor: 0,
        target: 0,
        has_target: 0,
        impact: 0,
        aggression: 0,
        salience: 0,
        kind: 0,
        created_tick: 0,
        expires_at: 0,
    }
}

/// The wire form of an optional memory: the record, or zeros when absent.
pub open spec fn optional_memory_wire(memory: Option<MemoryRecord>) -> WireMemoryRecord {
    match memory {
        Some(record) => memory_wire(record),
        None => zero_memory(),
    }
}

/// The wire form of an applied deed's outcome.
pub open spec fn outcome_wire(outcome: DirectWitnessOutcome) -> WireOutcome {
    WireOutcome {
        deed_id: outcome.deed_id_of(),
        observer: outcome.observer_of()@,
        actor: outcome.actor_of()@,
        target: target_id(outcome.target_of()),
        has_target: presence(outcome.target_of()),
        relationship: lookup_wire(outcome.relationship_of()),
        evaluation: evaluation_wire(outcome.evaluation_of()),
        previous_affinity: outcome.previous_affinity_of()@,
        current_affinity: outcome.current_affinity_of()@,
        previous_pad: outcome.previous_pad_of(),
        current_pad: outcome.current_pad_of(),
        has_memory: presence(outcome.memory_of()),
        memory: optional_memory_wire(outcome.memory_of()),
    }
}

/// Encodes an applied deed's outcome for the wire.
pub fn encode_outcome(outcome: DirectWitnessOutcome) -> (r: WireOutcome)
    ensures
        r == outcome_wire(outcome),
{
    let (target, has_target) = encode_target(outcome.target());
    let (has_memory, memory) = match outcome.memory() {
        Some(record) => (1, encode_memory(record)),
        None => (
            0,
            WireMemoryRecord {
                observer: 0,
                deed_id: 0,
                actor: 0,
                target: 0,
                has_target: 0,
                impact: 0,
                aggression: 0,
                salience: 0,
                kind: 0,
                created_tick: 0,
                expires_at: 0,
            },
        ),
    };
    WireOutcome {
        deed_id: outcome.deed_id(),
        observer: outcome.observer().into_raw(),
        actor: outcome.actor().into_raw(),
        target,
        has_target,
        relationship: encode_lookup(outcome.relationship()),
        evaluation: encode_evaluation(outcome.evaluation()),
        previous_affinity: outcome.previous_affinity().value(),
        current_affinity: outcome.current_affinity().value(),
        previous_pad: outcome.previous_pad(),
        current_pad: outcome.current_pad(),
        has_memory,
        memory,
    }
}

/// The payload of a `PfSubmissionResult` record: its tag, key, and the
/// outcome of an applied deed (`None` for a duplicate, whose outcome record
/// is all zeros).
#[derive(Clone, Copy, Debug, PartialEq, Eq, Structural)]
pub struct WireSubmission {
    pub kind: u32,
    pub observer: u64,
    pub deed_id: u64,
    pub outcome: Option<WireOutcome>,
}

/// The wire form of a submission: `PF_SUBMISSION_APPLIED` with the outcome's
/// key and record, or `PF_SUBMISSION_DUPLICATE` with the duplicate's key.
pub open spec fn submission_wire(submission: DirectWitnessSubmission) -> WireSubmission {
    match submission {
        DirectWitnessSubmission::Applied(outcome) => WireSubmission {
            kind: PF_SUBMISSION_APPLIED,
            observer: outcome.observer_of()@,
            deed_id: outcome.deed_id_of(),
            outcome: Some(outcome_wire(outcome)),
        },
        DirectWitnessSubmission::Duplicate { observer, deed_id } => WireSubmission {
            kind: PF_SUBMISSION_DUPLICATE,
            observer: observer@,
            deed_id,
            outcome: None,
        },
    }
}

/// Encodes a submission result for the wire.
pub fn encode_submission(submission: DirectWitnessSubmission) -> (r: WireSubmission)
    ensures
        r == submission_wire(submission),
{
    match submission {
        DirectWitnessSubmission::Applied(outcome) => WireSubmission {
            kind: PF_SUBMISSION_APPLIED,
            observer: outcome.observer().into_raw(),
            deed_id: outcome.deed_id(),
            outcome: Some(encode_outcome(outcome)),
        },
        DirectWitnessSubmission::Duplicate { observer, deed_id } => WireSubmission {
            kind: PF_SUBMISSION_DUPLICATE,
            observer: observer.into_raw(),
            deed_id,
            outcome: None,
        },
    }
}

/// The fields of a `PfEvent` record; binary32 values are patterns. Fields an
/// event does not use are zero.
#[derive(Clone, Copy, Debug, PartialEq, Eq, Structural)]
pub struct WireEvent {
    pub kind: u32,
    pub faction_id: u64,
    pub member_id: u64,
    pub deed_id: u64,
    pub observer: u64,
    pub actor: u64,
    pub target: u64,
    pub has_target: u8,
    pub relationship_layer: u32,
    pub relationship_source_id: u64,
    pub relationship_target_id: u64,
    pub previous_present: u8,
    pub current_present: u8,
    pub previous_affinity: u32,
    pub current_affinity: u32,
    pub evaluation: WireEvaluation,
    pub previous_pad: Pad,
    pub current_pad: Pad,
    pub memory_kind: u32,
    pub previous_memory_kind: u32,
    pub current_memory_kind: u32,
    pub salience: u32,
    pub previous_tick: u64,
    pub current_tick: u64,
}

/// An evaluation record with every field zero.
pub open spec fn zero_evaluation() -> WireEvaluation {
    WireEvaluation {
        concern: 0,
        effective_confidence: 0,
        raw_affinity_delta: 0,
        raw_pad_delta: Pad { pleasure: 0, arousal: 0, dominance: 0 },
        event_intensity: 0,
        memory_salience: 0,
        memory_kind: 0,
    }
}

/// An event record with every field zero.
pub open spec fn zero_event() -> WireEvent {
    WireEvent {
        kind: 0,
        faction_id: 0,
        member_id: 0,
        deed_id: 0,
        observer: 0,
        actor: 0,
        target: 0,
        has_target: 0,
        relationship_layer: 0,
        relationship_source_id: 0,
        relationship_target_id: 0,
        previous_present: 0,
        current_present: 0,
        previous_affinity: 0,
        current_affinity: 0,
        evaluation: zero_evaluation(),
        previous_pad: Pad { pleasure: 0, arousal: 0, dominance: 0 },
        current_pad: Pad { pleasure: 0, arousal: 0, dominance: 0 },
        memory_kind: 0,
        previous_memory_kind: 0,
        current_memory_kind: 0,
        salience: 0,
        previous_tick: 0,
        current_tick: 0,
    }
}

/// The pattern of an optional affinity, `0` (`+0.0`) when absent.
pub open spec fn affinity_bits(value: Option<Affinity>) -> u32 {
    match value {
        Some(affinity) => affinity@,
        None => 0,
    }
}

/// The source and target identifiers of a relationship subject.
pub open spec fn subject_ids(subject: RelationshipSubject) -> (u64, u64) {
    match subject {
        RelationshipSubject::MemberToMember { observer, target } => (observer@, target@),
        RelationshipSubject::FactionToMember { faction, member } => (faction@, member@),
        RelationshipSubject::FactionToFaction { source, target } => (source@, target@),
    }
}

/// The wire form of an event: its tag, the fields its variant carries (ids
/// as raw values, a missing target as `0` with `has_target == 0`, optional
/// affinities as presence flags and patterns that are `0` when absent, codes
/// for memory kinds), and zero in every other field.
pub open spec fn event_wire(e: SimulationEvent) -> WireEvent {
    match e {
        SimulationEvent::FactionAdded { faction_id } => WireEvent {
            kind: PF_EVENT_FACTION_ADDED,
            faction_id: faction_id@,
            ..zero_event()
        },
        SimulationEvent::MemberAdded { member_id } => WireEvent {
            kind: PF_EVENT_MEMBER_ADDED,
            member_id: member_id@,
            ..zero_event()
        },
        SimulationEvent::RelationshipChanged { layer, subject, previous, current } => WireEvent {
            kind: PF_EVENT_RELATIONSHIP_CHANGED,
            relationship_layer: relationship_layer_code(layer),
            relationship_source_id: subject_ids(subject).0,
            relationship_target_id: subject_ids(subject).1,
            previous_present: presence(previous),
            current_present: presence(current),
            previous_affinity: affinity_bits(previous),
            current_affinity: affinity_bits(current),
            ..zero_event()
        },
        SimulationEvent::DeedEvaluated { deed_id, observer, actor, target, evaluation } => WireEvent {
            kind: PF_EVENT_DEED_EVALUATED,
            deed_id,
            observer: observer@,
            actor: actor@,
            target: target_id(target),
            has_target: presence(target),
            evaluation: evaluation_wire(evaluation),
            ..zero_event()
        },
        SimulationEvent::AffinityChanged { observer, actor, previous, current } => WireEvent {
            kind: PF_EVENT_AFFINITY_CHANGED,
            observer: observer@,
            actor: actor@,
            previous_affinity: previous@,
            current_affinity: current@,
            ..zero_event()
        },
        SimulationEvent::PadChanged { member_id, previous, current } => WireEvent {
            kind: PF_EVENT_PAD_CHANGED,
            member_id: member_id@,
            previous_pad: previous,
            current_pad: current,
            ..zero_event()
        },
        SimulationEvent::MemoryRemembered { observer, deed_id, kind, salience } => WireEvent {
            kind: PF_EVENT_MEMORY_REMEMBERED,
            observer: observer@,
            deed_id,
            memory_kind: memory_kind_code(kind),
            salience,
            ..zero_event()
        },
        SimulationEvent::MemoryUpgraded { observer, deed_id, previous, current, salience } => WireEvent {
            kind: PF_EVENT_MEMORY_UPGRADED,
            observer: observer@,
            deed_id,
            previous_memory_kind: memory_kind_code(previous),
            current_memory_kind: memory_kind_code(current),
            salience,
            ..zero_event()
        },
        SimulationEvent::MemoryExpired { observer, deed_id, kind } => WireEvent {
            kind: PF_EVENT_MEMORY_EXPIRED,
            observer: observer@,
            deed_id,
            memory_kind: memory_kind_code(kind),
            ..zero_event()
        },
        SimulationEvent::TimeAdvanced { previous_tick, current_tick } => WireEvent {
            kind: PF_EVENT_TIME_ADVANCED,
            previous_tick,
            current_tick,
            ..zero_event()
        },
    }
}

fn encode_affinity(value: Option<Affinity>) -> (r: (u8, u32))
    ensures
        r == (presence(value), affinity_bits(value)),
{
    match value {
        Some(affinity) => (1, affinity.value()),
        None => (0, 0),
    }
}

/// Encodes an event for the wire.
pub fn encode_event(e: SimulationEvent) -> (r: WireEvent)
    ensures
        r == event_wire(e),
{
    let zero_pad = Pad { pleasure: 0, arousal: 0, dominance: 0 };
    let mut output = WireEvent {
        kind: 0,
        faction_id: 0,
        member_id: 0,
        deed_id: 0,
        observer: 0,
        actor: 0,
        target: 0,
        has_target: 0,
        relationship_layer: 0,
        relationship_source_id: 0,
        relationship_target_id: 0,
        previous_present: 0,
        current_present: 0,
        previous_affinity: 0,
        current_affinity: 0,
        evaluation: WireEvaluation {
            concern: 0,
            effective_confidence: 0,
            raw_affinity_delta: 0,
            raw_pad_delta: zero_pad,
            event_intensity: 0,
            memory_salience: 0,
            memory_kind: 0,
        },
        previous_pad: zero_pad,
        current_pad: zero_pad,
        memory_kind: 0,
        previous_memory_kind: 0,
        current_memory_kind: 0,
        salience: 0,
        previous_tick: 0,
        current_tick: 0,
    };
    match e {
        SimulationEvent::FactionAdded { faction_id } => {
            output.kind = PF_EVENT_FACTION_ADDED;
            output.faction_id = faction_id.into_raw();
        },
        SimulationEvent::MemberAdded { member_id } => {
            output.kind = PF_EVENT_MEMBER_ADDED;
            output.member_id = member_id.into_raw();
        },
        SimulationEvent::RelationshipChanged { layer, subject, previous, current } => {
            output.kind = PF_EVENT_RELATIONSHIP_CHANGED;
            output.relationship_layer = relationship_layer_to_c(layer);
            let (previous_present, previous_affinity) = encode_affinity(previous);
            let (current_present, current_affinity) = encode_affinity(current);
            output.previous_present = previous_present;
            output.current_present = current_present;
            output.previous_affinity = previous_affinity;
            output.current_affinity = current_affinity;
            match subject {
                RelationshipSubject::MemberToMember { observer, target } => {
                    output.relationship_source_id = observer.into_raw();
                    output.relationship_target_id = target.into_raw();
                },
                RelationshipSubject::FactionToMember { faction, member } => {
                    output.relationship_source_id = faction.into_raw();
                    output.relationship_target_id = member.into_raw();
                },
                RelationshipSubject::FactionToFaction { source, target } => {
                    output.relationship_source_id = source.into_raw();
                    output.relationship_target_id = target.into_raw();
                },
            }
        },
        SimulationEvent::DeedEvaluated { deed_id, observer, actor, target, evaluation } => {
            output.kind = PF_EVENT_DEED_EVALUATED;
            output.deed_id = deed_id;
            output.observer = observer.into_raw();
            output.actor = actor.into_raw();
            let (target, has_target) = encode_target(target);
            output.target = target;
            output.has_target = has_target;
            output.evaluation = encode_evaluation(evaluation);
        },
        SimulationEvent::AffinityChanged { observer, actor, previous, current } => {
            output.kind = PF_EVENT_AFFINITY_CHANGED;
            output.observer = observer.into_raw();
            output.actor = actor.into_raw();
            output.previous_affinity = previous.value();
            output.current_affinity = current.value();
        },
        SimulationEvent::PadChanged { member_id, previous, current } => {
            output.kind = PF_EVENT_PAD_CHANGED;
            output.member_id = member_id.into_raw();
            output.previous_pad = previous;
            output.current_pad = current;
        },
        SimulationEvent::MemoryRemembered { observer, deed_id, kind, salience } => {
            output.kind = PF_EVENT_MEMORY_REMEMBERED;
            output.observer = observer.into_raw();
            output.deed_id = deed_id;
            output.memory_kind = memory_kind_to_c(kind);
            output.salience = salience;
        },
        SimulationEvent::MemoryUpgraded { observer, deed_id, previous, current, salience } => {
            output.kind = PF_EVENT_MEMORY_UPGRADED;
            output.observer = observer.into_raw();
            output.deed_id = deed_id;
            output.previous_memory_kind = memory_kind_to_c(previous);
            output.current_memory_kind = memory_kind_to_c(current);
            output.salience = salience;
        },
        SimulationEvent::MemoryExpired { observer, deed_id, kind } => {
            output.kind = PF_EVENT_MEMORY_EXPIRED;
            output.observer = observer.into_raw();
            output.deed_id = deed_id;
            output.memory_kind = memory_kind_to_c(kind);
        },
        SimulationEvent::TimeAdvanced { previous_tick, current_tick } => {
            output.kind = PF_EVENT_TIME_ADVANCED;
            output.previous_tick = previous_tick;
            output.current_tick = current_tick;
        },
    }
    output
}

/// Encodes every pending event of a simulation, oldest first, leaving the
/// simulation as it is; more events than a C `uint32_t` counts is an
/// internal error.
pub fn encode_events(slot: &mut LastError, simulation: &Simulation) -> (r: Result<
    Vec<WireEvent>,
    PfResult,
>)
    ensures
        simulation.pending_events().len() <= u32::MAX ==> match r {
            Ok(encoded) => {
                &&& encoded@ == simulation.pending_events().map_values(|e: SimulationEvent| event_wire(e))
                &&& *final(slot) == *old(slot)
            },
            Err(_) => false,
        },
        simulation.pending_events().len() > u32::MAX ==> r == Err::<Vec<WireEvent>, PfResult>(
            PF_INTERNAL_ERROR,
        ) && final(slot).bytes() == encode_utf8("result count exceeds the C ABI uint32 range"@),
{
    let events = simulation.events_snapshot();
    match checked_u32(slot, events.len()) {
        Ok(_) => {},
        Err(code) => return Err(code),
    }
    let mut encoded: Vec<WireEvent> = Vec::new();
    for i in 0..events.len()
        invariant
            encoded@ == events@.take(i as int).map_values(|e: SimulationEvent| event_wire(e)),
    {
        encoded.push(encode_event(events[i]));
        proof {
            assert(events@.take(i + 1).map_values(|e: SimulationEvent| event_wire(e)) =~= events@.take(
                i as int,
            ).map_values(|e: SimulationEvent| event_wire(e)).push(event_wire(events@[i as int])));
        }
    }
    proof {
        assert(events@.take(events@.len() as int) =~= events@);
    }
    Ok(encoded)
}

/// Checks that a caller buffer with room for `capacity` items can take
/// `required` of them; a smaller buffer is `PF_BUFFER_TOO_SMALL` with
/// `message` as the diagnostic.
pub fn check_capacity(slot: &mut LastError, capacity: u32, required: u32, message: &str) -> (r:
    Result<(), PfResult>)
    ensures
        capacity < required ==> r == Err::<(), PfResult>(PF_BUFFER_TOO_SMALL) && final(slot).bytes()
            == encode_utf8(message@),
        capacity >= required ==> r == Ok::<(), PfResult>(()) && *final(slot) == *old(slot),
{
    if capacity < required {
        return Err(buffer_too_small(slot, message));
    }
    Ok(())
}

/// Reads bytes as UTF-8 text.
///
/// Trusted: `std::str::from_utf8`, which std documents as succeeding exactly
/// when the bytes are well-formed UTF-8, and then borrowing them as the text
/// they encode.
#[verifier::external_body]
fn utf8_str(bytes: &[u8]) -> (r: Option<&str>)
    ensures
        r is Some <==> valid_utf8(bytes@),
        r matches Some(text) ==> text@ == decode_utf8(bytes@),
{
    match std::str::from_utf8(bytes) {
        Ok(text) => Some(text),
        Err(_) => None,
    }
}

/// A faction name from its wire bytes; bytes that are not well-formed UTF-8
/// are an invalid argument.
pub fn faction_name_text<'a>(slot: &mut LastError, bytes: &'a [u8]) -> (r: Result<&'a str, PfResult>)
    ensures
        valid_utf8(bytes@) ==> match r {
            Ok(name) => name@ == decode_utf8(bytes@) && *final(slot) == *old(slot),
            Err(_) => false,
        },
        !valid_utf8(bytes@) ==> r == Err::<&str, PfResult>(PF_INVALID_ARGUMENT) && final(slot).bytes()
            == encode_utf8("faction name is not valid UTF-8"@),
{
    match utf8_str(bytes) {
        Some(name) => Ok(name),
        None => Err(invalid_argument(slot, "faction name is not valid UTF-8")),
    }
}

/// Checks that a batch's result buffer can hold one result per deed; a
/// smaller buffer is `PF_BUFFER_TOO_SMALL`, and the host reports `deed_count`
/// as the size it needs.
pub fn check_batch_capacity(slot: &mut LastError, deed_count: u32, result_capacity: u32) -> (r: Result<
    (),
    PfResult,
>)
    ensures
        deed_count > result_capacity ==> r == Err::<(), PfResult>(PF_BUFFER_TOO_SMALL)
            && final(slot).bytes() == encode_utf8("result buffer is smaller than deed_count"@),
        deed_count <= result_capacity ==> r == Ok::<(), PfResult>(()) && *final(slot) == *old(slot),
{
    if deed_count > result_capacity {
        return Err(buffer_too_small(slot, "result buffer is smaller than deed_count"));
    }
    Ok(())
}

/// Parses a batch of wire deeds in order; the first deed that fails is
/// reported by index with its result code, as `parse_deed` gives it.
pub fn parse_deeds(slot: &mut LastError, raws: &[RawDirectWitnessDeed], expected_size: u32) -> (r: Result<
    Vec<DirectWitnessDeed>,
    (usize, PfResult),
>)
    ensures
        match r {
            Ok(deeds) => {
                &&& deeds.len() == raws.len()
                &&& forall|i: int| 0 <= i < raws.len() ==> wire_deed_is_valid(#[trigger] raws@[i], expected_size)
                &&& forall|i: int| 0 <= i < raws.len() ==> parsed_from(#[trigger] deeds@[i], raws@[i])
                &&& *final(slot) == *old(slot)
            },
            Err((index, code)) => {
                &&& index < raws.len()
                &&& forall|i: int| 0 <= i < index ==> wire_deed_is_valid(#[trigger] raws@[i], expected_size)
                &&& !wire_deed_is_valid(raws@[index as int], expected_size)
                &&& code == (if raws@[index as int].api_version != PF_ABI_VERSION {
                    PF_VERSION_MISMATCH
                } else {
                    PF_INVALID_ARGUMENT
                })
                &&& match deed_failure_message(raws@[index as int], expected_size) {
                    Some(message) => final(slot).bytes() == encode_utf8(message),
                    None => *final(slot) == *old(slot),
                }
            },
        },
{
    let mut deeds: Vec<DirectWitnessDeed> = Vec::new();
    for i in 0..raws.len()
        invariant
            deeds.len() == i,
            *slot == *old(slot),
            forall|j: int| 0 <= j < i ==> wire_deed_is_valid(#[trigger] raws@[j], expected_size),
            forall|j: int| 0 <= j < i ==> parsed_from(#[trigger] deeds@[j], raws@[j]),
    {
        match parse_deed(slot, &raws[i], expected_size) {
            Ok(deed) => deeds.push(deed),
            Err(code) => return Err((i, code)),
        }
    }
    Ok(deeds)
}

/// The result of copying the last message into a caller buffer of
/// `capacity` bytes: a buffer smaller than the message is
/// `PF_BUFFER_TOO_SMALL`, a missing buffer for a non-empty message is
/// `PF_INVALID_ARGUMENT`, and otherwise the copy succeeds. Neither failure
/// records a diagnostic, so the message being read stays.
pub fn message_copy_result(required: u32, capacity: u32, has_buffer: bool) -> (r: PfResult)
    ensures
        r == if capacity < required {
            PF_BUFFER_TOO_SMALL
        } else if required > 0 && !has_buffer {
            PF_INVALID_ARGUMENT
        } else {
            PF_OK
        },
{
    if capacity < required {
        PF_BUFFER_TOO_SMALL
    } else if required > 0 && !has_buffer {
        PF_INVALID_ARGUMENT
    } else {
        PF_OK
    }
}

} // verus!
