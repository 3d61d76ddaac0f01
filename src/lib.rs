//! Cooking a raw TZif decode: the flat arrays and the packed string table of
//! a time zone file become an ordered list of transitions, each sharing one of
//! a table of resolved local time types.
use std::rc::Rc;
use vstd::prelude::*;
use vstd::utf8::{valid_utf8, decode_utf8};

pub mod internals;
pub mod names;

use internals::{TZData, TransitionData};
use names::{decode_name, name_bytes, slice_name};

verus! {

/// How the moment of a transition was recorded.
#[derive(Debug, Clone, Copy, PartialEq, Eq, Structural)]
pub enum TransitionType {
    /// Standard time ("non-summer" time).
    Standard,
    /// Wall clock time.
    Wall,
    /// Co-ordinated Universal Time.
    UTC,
}

/// The classification of a local time type from its two indicator flags:
/// the UT flag wins over the standard flag, and with neither it is wall time.
pub open spec fn transition_type_of(standard: bool, gmt: bool) -> TransitionType {
    if gmt {
        TransitionType::UTC
    } else if standard {
        TransitionType::Standard
    } else {
        TransitionType::Wall
    }
}

/// Collapses the standard/UT indicator pair into one classification.
pub fn flags_to_transition_type(standard: bool, gmt: bool) -> (r: TransitionType)
    ensures
        r == transition_type_of(standard, gmt),
{
    match (standard, gmt) {
        (_, true) => TransitionType::UTC,
        (true, _) => TransitionType::Standard,
        (false, false) => TransitionType::Wall,
    }
}

/// A time change: the moment and the local time that holds from then on.
#[derive(Debug, PartialEq, Eq, Clone)]
pub struct Transition {
    /// Unix timestamp when the clocks change.
    pub timestamp: u32,
    /// The new description of the local time, shared with every other
    /// transition to the same local time type.
    pub local_time_type: Rc<LocalTimeType>,
}

/// A leap second.
#[derive(Debug, PartialEq, Eq, Clone, Copy, Structural)]
pub struct LeapSecond {
    /// Unix timestamp at which a leap second occurs.
    pub timestamp: u32,
    /// Number of leap seconds to be added.
    pub leap_second_count: u32,
}

/// A description of the local time in a time zone, during a period in which
/// the clocks do not change.
#[derive(Debug, PartialEq, Eq, Clone)]
pub struct LocalTimeType {
    /// The time zone abbreviation, such as "GMT" or "EST".
    pub name: String,
    /// Number of seconds to be added to Universal Time (negative west of Greenwich).
    pub offset: i32,
    /// Whether daylight saving time is in effect.
    pub is_dst: bool,
    /// How transitions into this local time were recorded.
    pub transition_type: TransitionType,
}

/// Why a raw decode could not be cooked.
#[derive(Debug, Clone, Copy, PartialEq, Eq, Structural)]
pub enum CookError {
    /// An abbreviation in the string table is not valid UTF-8.
    MalformedName,
    /// A transition refers to a local time type that does not exist.
    IndexOutOfRange,
}

/// The mathematical value of a [`LocalTimeType`].
pub struct LocalTimeTypeModel {
    pub name: Seq<char>,
    pub offset: int,
    pub is_dst: bool,
    pub transition_type: TransitionType,
}

/// The mathematical value of a [`Transition`].
pub struct TransitionModel {
    pub timestamp: u32,
    pub local_time_type: LocalTimeTypeModel,
}

impl View for LocalTimeType {
    type V = LocalTimeTypeModel;

    open spec fn view(&self) -> LocalTimeTypeModel {
        LocalTimeTypeModel {
            name: self.name@,
            offset: self.offset as int,
            is_dst: self.is_dst,
            transition_type: self.transition_type,
        }
    }
}

impl View for Transition {
    type V = TransitionModel;

    open spec fn view(&self) -> TransitionModel {
        TransitionModel { timestamp: self.timestamp, local_time_type: self.local_time_type@ }
    }
}

/// The signed number of seconds that a 32-bit two's complement pattern stands for.
pub open spec fn signed_offset(raw: u32) -> int {
    if raw < 0x8000_0000 {
        raw as int
    } else {
        raw as int - 0x1_0000_0000
    }
}

/// The bytes of the abbreviation of raw local time type `i`.
pub open spec fn raw_name(tz: TZData, i: int) -> Seq<u8> {
    name_bytes(tz.strings@, tz.time_info@[i].name_offset as int)
}

/// Every local time type's abbreviation is valid UTF-8.
pub open spec fn names_valid(tz: TZData) -> bool {
    forall|i: int| 0 <= i < tz.time_info@.len() ==> valid_utf8(#[trigger] raw_name(tz, i))
}

/// Every transition refers to an existing local time type.
pub open spec fn indices_in_range(tz: TZData) -> bool {
    forall|j: int|
        0 <= j < tz.transitions@.len() ==> (#[trigger] tz.transitions@[j]).local_time_type_index
            < tz.time_info@.len()
}

/// The cooked value of raw local time type `i`.
pub open spec fn cooked_type(tz: TZData, i: int) -> LocalTimeTypeModel {
    LocalTimeTypeModel {
        name: decode_utf8(raw_name(tz, i)),
        offset: signed_offset(tz.time_info@[i].offset),
        is_dst: tz.time_info@[i].is_dst != 0,
        transition_type: transition_type_of(tz.standard_flags@[i] != 0, tz.gmt_flags@[i] != 0),
    }
}

/// The cooked value of a raw transition record.
pub open spec fn cooked_transition(tz: TZData, t: TransitionData) -> TransitionModel {
    TransitionModel {
        timestamp: t.timestamp,
        local_time_type: cooked_type(tz, t.local_time_type_index as int),
    }
}

/// What cooking a raw decode yields: the first failure in the order in which
/// the work is done (all names, then all links), else one cooked transition
/// per raw record, in the same order.
pub open spec fn cooked(tz: TZData) -> Result<Seq<TransitionModel>, CookError> {
    if !names_valid(tz) {
        Err(CookError::MalformedName)
    } else if !indices_in_range(tz) {
        Err(CookError::IndexOutOfRange)
    } else {
        Ok(tz.transitions@.map_values(|t: TransitionData| cooked_transition(tz, t)))
    }
}

/// The mathematical value of a cooking outcome.
pub open spec fn outcome_view(r: Result<Vec<Transition>, CookError>) -> Result<
    Seq<TransitionModel>,
    CookError,
> {
    match r {
        Ok(v) => Ok(v@.map_values(|t: Transition| t@)),
        Err(e) => Err(e),
    }
}

/// Relies on `Rc::clone`: the new handle points to the same value.
#[verifier::external_body]
fn share(r: &Rc<LocalTimeType>) -> (s: Rc<LocalTimeType>)
    ensures
        s == *r,
{
    Rc::clone(r)
}

/// Builds the table of local time types, index-aligned with the raw records.
pub fn build_local_time_types(tz: &TZData) -> (r: Result<Vec<Rc<LocalTimeType>>, CookError>)
    requires
        tz.wf(),
    ensures
        r is Ok <==> names_valid(*tz),
        r matches Err(e) ==> e == CookError::MalformedName,
        r matches Ok(v) ==> {
            &&& v@.len() == tz.time_info@.len()
            &&& forall|i: int| 0 <= i < v@.len() ==> (#[trigger] v@[i])@ == cooked_type(*tz, i)
        },
{
    let n = tz.header.num_local_time_types as usize;
    let mut types: Vec<Rc<LocalTimeType>> = Vec::with_capacity(n);
    let mut i: usize = 0;
    while i < n
        invariant
            n == tz.time_info@.len(),
            tz.wf(),
            i <= n,
            types@.len() == i,
            forall|k: int| 0 <= k < i ==> valid_utf8(#[trigger] raw_name(*tz, k)),
            forall|k: int| 0 <= k < i ==> (#[trigger] types@[k])@ == cooked_type(*tz, k),
        decreases n - i,
    {
        let data = &tz.time_info[i];
        let bytes = slice_name(&tz.strings, data.name_offset as usize);
        let name = match decode_name(bytes) {
            Some(s) => s,
            None => {
                assert(!valid_utf8(raw_name(*tz, i as int)));
                return Err(CookError::MalformedName);
            },
        };
        let offset = #[verifier::truncate] (data.offset as i32);
        proof {
            let raw = data.offset;
            assert(raw < 0x8000_0000u32 ==> (raw as i32) as i64 == raw as i64) by (bit_vector);
            assert(raw >= 0x8000_0000u32 ==> (raw as i32) as i64 == raw as i64 - 0x1_0000_0000i64)
                by (bit_vector);
        }
        let info = LocalTimeType {
            name,
            offset,
            is_dst: data.is_dst != 0,
            transition_type: flags_to_transition_type(
                tz.standard_flags[i] != 0,
                tz.gmt_flags[i] != 0,
            ),
        };
        types.push(Rc::new(info));
        i = i + 1;
    }
    Ok(types)
}


/// Links each raw transition record to the local time type it names, in the
/// order of the records; every link to one type shares that type's handle.
pub fn link_transitions(raw: &Vec<TransitionData>, types: &Vec<Rc<LocalTimeType>>) -> (r: Result<
    Vec<Transition>,
    CookError,
>)
    ensures
        r is Ok <==> forall|j: int|
            0 <= j < raw@.len() ==> (#[trigger] raw@[j]).local_time_type_index < types@.len(),
        r matches Err(e) ==> e == CookError::IndexOutOfRange,
        r matches Ok(v) ==> {
            &&& v@.len() == raw@.len()
            &&& forall|j: int|
                0 <= j < v@.len() ==> (#[trigger] v@[j]).timestamp == raw@[j].timestamp
                    && v@[j].local_time_type == types@[raw@[j].local_time_type_index as int]
        },
{
    let mut transitions: Vec<Transition> = Vec::with_capacity(raw.len());
    let mut j: usize = 0;
    while j < raw.len()
        invariant
            j <= raw@.len(),
            transitions@.len() == j,
            forall|k: int| 0 <= k < j ==> (#[trigger] raw@[k]).local_time_type_index < types@.len(),
            forall|k: int|
                0 <= k < j ==> (#[trigger] transitions@[k]).timestamp == raw@[k].timestamp
                    && transitions@[k].local_time_type == types@[raw@[k].local_time_type_index as int],
        decreases raw@.len() - j,
    {
        let t = &raw[j];
        if t.local_time_type_index >= types.len() {
            return Err(CookError::IndexOutOfRange);
        }
        let transition = Transition {
            timestamp: t.timestamp,
            local_time_type: share(&types[t.local_time_type_index]),
        };
        transitions.push(transition);
        j = j + 1;
    }
    Ok(transitions)
}

/// Converts a raw decode into its list of transitions: first every local
/// time type is built, then every transition is linked to one of them.
pub fn cook(tz: TZData) -> (r: Result<Vec<Transition>, CookError>)
    requires
        tz.wf(),
    ensures
        outcome_view(r) == cooked(tz),
        r matches Ok(v) ==> forall|j1: int, j2: int|
            0 <= j1 < v@.len() && 0 <= j2 < v@.len() && tz.transitions@[j1].local_time_type_index
                == tz.transitions@[j2].local_time_type_index ==> (#[trigger] v@[j1]).local_time_type
                == (#[trigger] v@[j2]).local_time_type,
{
    let types = match build_local_time_types(&tz) {
        Ok(types) => types,
        Err(e) => {
            return Err(e);
        },
    };
    let r = link_transitions(&tz.transitions, &types);
    proof {
        match r {
            Ok(ref v) => {
                assert(indices_in_range(tz));
                let want = tz.transitions@.map_values(|t: TransitionData| cooked_transition(tz, t));
                assert(v@.map_values(|t: Transition| t@) =~= want);
            },
            Err(ref _e) => {
                assert(!indices_in_range(tz));
            },
        }
    }
    r
}


/// Cooking is a function of the raw decode alone: any two outcomes of cooking
/// the same input are the same value.
pub proof fn cooking_is_deterministic(
    tz: TZData,
    r1: Result<Vec<Transition>, CookError>,
    r2: Result<Vec<Transition>, CookError>,
)
    requires
        outcome_view(r1) == cooked(tz),
        outcome_view(r2) == cooked(tz),
    ensures
        outcome_view(r1) == outcome_view(r2),
{
}

/// Each cooked transition keeps its raw record's timestamp and carries the
/// local time type built from the raw record at the index it names.
pub proof fn cooked_types_follow_raw_indices(tz: TZData, v: Seq<TransitionModel>, j: int)
    requires
        cooked(tz) == Ok::<Seq<TransitionModel>, CookError>(v),
        0 <= j < v.len(),
    ensures
        v.len() == tz.transitions@.len(),
        tz.transitions@[j].local_time_type_index < tz.time_info@.len(),
        v[j].timestamp == tz.transitions@[j].timestamp,
        v[j].local_time_type == cooked_type(tz, tz.transitions@[j].local_time_type_index as int),
{
}

/// A transition whose index is one past the last local time type makes
/// cooking fail; when the names are sound, with the out-of-range error.
pub proof fn index_one_past_end_is_rejected(tz: TZData, j: int)
    requires
        0 <= j < tz.transitions@.len(),
        tz.transitions@[j].local_time_type_index == tz.time_info@.len(),
    ensures
        cooked(tz) is Err,
        names_valid(tz) ==> cooked(tz) == Err::<Seq<TransitionModel>, CookError>(
            CookError::IndexOutOfRange,
        ),
{
    assert(!indices_in_range(tz));
}

} // verus!
