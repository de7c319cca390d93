//! Models representing data types returned by the My Bus Tracker API.
//!
//! Enumerated status and category codes are decoded from their short wire
//! codes through explicit lookup functions with exact contracts: each
//! documented code maps to exactly one variant, and an undocumented code is
//! rejected rather than silently defaulted.  The JSON plumbing around these
//! tables lives outside the library; callers hand the extracted wire values
//! in and receive the named variants back.

use vstd::prelude::*;
use vstd::string::*;

use crate::strutil::{append_dec2, dec2_of, str_eq};

verus! {

broadcast use vstd::string::group_string_axioms;

// ---------------------------------------------------------------------------
// Operators
// ---------------------------------------------------------------------------
/// A bus operator.
#[derive(Clone, Copy, Debug, PartialEq, Eq, Structural)]
pub enum Operator {
    LothianBuses,
    AllOperators,
}

/// The operator named by a wire code, if any.
pub open spec fn operator_of(s: Seq<char>) -> Option<Operator> {
    if s == "LB"@ {
        Some(Operator::LothianBuses)
    } else if s == "0"@ || s == "ALL"@ {
        Some(Operator::AllOperators)
    } else {
        None
    }
}

/// The wire code transmitted for an operator.
pub open spec fn operator_code(o: Operator) -> Seq<char> {
    match o {
        Operator::LothianBuses => "LB"@,
        Operator::AllOperators => "0"@,
    }
}

impl Operator {
    /// Decode an operator from its wire code.
    pub fn from_code(s: &str) -> (r: Option<Operator>)
        ensures
            r == operator_of(s@),
    {
        if str_eq(s, "LB") {
            Some(Operator::LothianBuses)
        } else if str_eq(s, "0") || str_eq(s, "ALL") {
            Some(Operator::AllOperators)
        } else {
            None
        }
    }

    /// The wire code transmitted for this operator.
    pub fn code(&self) -> (s: &'static str)
        ensures
            s@ == operator_code(*self),
    {
        match self {
            Operator::LothianBuses => "LB",
            Operator::AllOperators => "0",
        }
    }
}

/// Decoding inverts encoding: every operator's own wire code names it.
pub proof fn lemma_operator_code_round_trip(o: Operator)
    ensures
        operator_of(operator_code(o)) == Some(o),
{
    reveal_strlit("LB");
    reveal_strlit("0");
    reveal_strlit("ALL");
    match o {
        Operator::LothianBuses => {
            assert(operator_code(o) == "LB"@);
            assert(operator_of("LB"@) == Some(Operator::LothianBuses));
        },
        Operator::AllOperators => {
            assert(operator_code(o) == "0"@);
            assert(operator_of("0"@) == Some(Operator::AllOperators));
        },
    }
}

// ---------------------------------------------------------------------------
// Reliability
// ---------------------------------------------------------------------------
/// The reliability annotation attached to a reported time.
#[derive(Clone, Copy, Debug, PartialEq, Eq, Structural)]
pub enum Reliability {
    Delayed,
    Delocated,
    RealTimeNotLowFloorEquipped,
    RealTimeLowFloorEquipped,
    Immobilized,
    Neutralized,
    RadioFault,
    Estimated,
    Diverted,
}

/// The reliability named by a wire code, if any.
pub open spec fn reliability_of(s: Seq<char>) -> Option<Reliability> {
    if s == "B"@ {
        Some(Reliability::Delayed)
    } else if s == "D"@ {
        Some(Reliability::Delocated)
    } else if s == "F"@ {
        Some(Reliability::RealTimeNotLowFloorEquipped)
    } else if s == "H"@ {
        Some(Reliability::RealTimeLowFloorEquipped)
    } else if s == "I"@ {
        Some(Reliability::Immobilized)
    } else if s == "N"@ {
        Some(Reliability::Neutralized)
    } else if s == "R"@ {
        Some(Reliability::RadioFault)
    } else if s == "T"@ {
        Some(Reliability::Estimated)
    } else if s == "V"@ {
        Some(Reliability::Diverted)
    } else {
        None
    }
}

/// The wire code for a reliability.
pub open spec fn reliability_code(r: Reliability) -> Seq<char> {
    match r {
        Reliability::Delayed => "B"@,
        Reliability::Delocated => "D"@,
        Reliability::RealTimeNotLowFloorEquipped => "F"@,
        Reliability::RealTimeLowFloorEquipped => "H"@,
        Reliability::Immobilized => "I"@,
        Reliability::Neutralized => "N"@,
        Reliability::RadioFault => "R"@,
        Reliability::Estimated => "T"@,
        Reliability::Diverted => "V"@,
    }
}

impl Reliability {
    /// Decode a reliability from its wire code.
    pub fn from_code(s: &str) -> (r: Option<Reliability>)
        ensures
            r == reliability_of(s@),
    {
        if str_eq(s, "B") {
            Some(Reliability::Delayed)
        } else if str_eq(s, "D") {
            Some(Reliability::Delocated)
        } else if str_eq(s, "F") {
            Some(Reliability::RealTimeNotLowFloorEquipped)
        } else if str_eq(s, "H") {
            Some(Reliability::RealTimeLowFloorEquipped)
        } else if str_eq(s, "I") {
            Some(Reliability::Immobilized)
        } else if str_eq(s, "N") {
            Some(Reliability::Neutralized)
        } else if str_eq(s, "R") {
            Some(Reliability::RadioFault)
        } else if str_eq(s, "T") {
            Some(Reliability::Estimated)
        } else if str_eq(s, "V") {
            Some(Reliability::Diverted)
        } else {
            None
        }
    }

    /// The wire code for this reliability.
    pub fn code(&self) -> (s: &'static str)
        ensures
            s@ == reliability_code(*self),
    {
        match self {
            Reliability::Delayed => "B",
            Reliability::Delocated => "D",
            Reliability::RealTimeNotLowFloorEquipped => "F",
            Reliability::RealTimeLowFloorEquipped => "H",
            Reliability::Immobilized => "I",
            Reliability::Neutralized => "N",
            Reliability::RadioFault => "R",
            Reliability::Estimated => "T",
            Reliability::Diverted => "V",
        }
    }
}


/// Two one-character strings differing at their only position differ.
proof fn lemma_one_char_seq_ne(a: Seq<char>, b: Seq<char>)
    requires
        a.len() == 1,
        b.len() == 1,
        a[0] != b[0],
    ensures
        a != b,
{
}

/// Decoding inverts encoding: every reliability's own wire code names it.
pub proof fn lemma_reliability_code_round_trip(r: Reliability)
    ensures
        reliability_of(reliability_code(r)) == Some(r),
{
    reveal_strlit("B");
    reveal_strlit("D");
    reveal_strlit("F");
    reveal_strlit("H");
    reveal_strlit("I");
    reveal_strlit("N");
    reveal_strlit("R");
    reveal_strlit("T");
    reveal_strlit("V");
    match r {
        Reliability::Delayed => {
            assert(reliability_code(r) == "B"@);
            assert(reliability_of("B"@) == Some(Reliability::Delayed));
        },
        Reliability::Delocated => {
            assert(reliability_code(r) == "D"@);
            lemma_one_char_seq_ne("D"@, "B"@);
            assert(reliability_of("D"@) == Some(Reliability::Delocated));
        },
        Reliability::RealTimeNotLowFloorEquipped => {
            assert(reliability_code(r) == "F"@);
            lemma_one_char_seq_ne("F"@, "B"@);
            lemma_one_char_seq_ne("F"@, "D"@);
            assert(reliability_of("F"@) == Some(Reliability::RealTimeNotLowFloorEquipped));
        },
        Reliability::RealTimeLowFloorEquipped => {
            assert(reliability_code(r) == "H"@);
            lemma_one_char_seq_ne("H"@, "B"@);
            lemma_one_char_seq_ne("H"@, "D"@);
            lemma_one_char_seq_ne("H"@, "F"@);
            assert(reliability_of("H"@) == Some(Reliability::RealTimeLowFloorEquipped));
        },
        Reliability::Immobilized => {
            assert(reliability_code(r) == "I"@);
            lemma_one_char_seq_ne("I"@, "B"@);
            lemma_one_char_seq_ne("I"@, "D"@);
            lemma_one_char_seq_ne("I"@, "F"@);
            lemma_one_char_seq_ne("I"@, "H"@);
            assert(reliability_of("I"@) == Some(Reliability::Immobilized));
        },
        Reliability::Neutralized => {
            assert(reliability_code(r) == "N"@);
            lemma_one_char_seq_ne("N"@, "B"@);
            lemma_one_char_seq_ne("N"@, "D"@);
            lemma_one_char_seq_ne("N"@, "F"@);
            lemma_one_char_seq_ne("N"@, "H"@);
            lemma_one_char_seq_ne("N"@, "I"@);
            assert(reliability_of("N"@) == Some(Reliability::Neutralized));
        },
        Reliability::RadioFault => {
            assert(reliability_code(r) == "R"@);
            lemma_one_char_seq_ne("R"@, "B"@);
            lemma_one_char_seq_ne("R"@, "D"@);
            lemma_one_char_seq_ne("R"@, "F"@);
            lemma_one_char_seq_ne("R"@, "H"@);
            lemma_one_char_seq_ne("R"@, "I"@);
            lemma_one_char_seq_ne("R"@, "N"@);
            assert(reliability_of("R"@) == Some(Reliability::RadioFault));
        },
        Reliability::Estimated => {
            assert(reliability_code(r) == "T"@);
            lemma_one_char_seq_ne("T"@, "B"@);
            lemma_one_char_seq_ne("T"@, "D"@);
            lemma_one_char_seq_ne("T"@, "F"@);
            lemma_one_char_seq_ne("T"@, "H"@);
            lemma_one_char_seq_ne("T"@, "I"@);
            lemma_one_char_seq_ne("T"@, "N"@);
            lemma_one_char_seq_ne("T"@, "R"@);
            assert(reliability_of("T"@) == Some(Reliability::Estimated));
        },
        Reliability::Diverted => {
            assert(reliability_code(r) == "V"@);
            lemma_one_char_seq_ne("V"@, "B"@);
            lemma_one_char_seq_ne("V"@, "D"@);
            lemma_one_char_seq_ne("V"@, "F"@);
            lemma_one_char_seq_ne("V"@, "H"@);
            lemma_one_char_seq_ne("V"@, "I"@);
            lemma_one_char_seq_ne("V"@, "N"@);
            lemma_one_char_seq_ne("V"@, "R"@);
            lemma_one_char_seq_ne("V"@, "T"@);
            assert(reliability_of("V"@) == Some(Reliability::Diverted));
        },
    }
}

// ---------------------------------------------------------------------------
// Stop types and directions
// ---------------------------------------------------------------------------
/// The role a stop plays on a journey.
#[derive(Clone, Copy, Debug, PartialEq, Eq, Structural)]
pub enum StopType {
    Terminus,
    Normal,
    PartRoute,
    Reference,
}

/// The stop type named by a wire code, if any.
pub open spec fn stop_type_of(s: Seq<char>) -> Option<StopType> {
    if s == "D"@ {
        Some(StopType::Terminus)
    } else if s == "N"@ {
        Some(StopType::Normal)
    } else if s == "P"@ {
        Some(StopType::PartRoute)
    } else if s == "R"@ {
        Some(StopType::Reference)
    } else {
        None
    }
}

/// The wire code for a stop type.
pub open spec fn stop_type_code(t: StopType) -> Seq<char> {
    match t {
        StopType::Terminus => "D"@,
        StopType::Normal => "N"@,
        StopType::PartRoute => "P"@,
        StopType::Reference => "R"@,
    }
}

impl StopType {
    /// Decode a stop type from its wire code.
    pub fn from_code(s: &str) -> (r: Option<StopType>)
        ensures
            r == stop_type_of(s@),
    {
        if str_eq(s, "D") {
            Some(StopType::Terminus)
        } else if str_eq(s, "N") {
            Some(StopType::Normal)
        } else if str_eq(s, "P") {
            Some(StopType::PartRoute)
        } else if str_eq(s, "R") {
            Some(StopType::Reference)
        } else {
            None
        }
    }

    /// The wire code for this stop type.
    pub fn code(&self) -> (s: &'static str)
        ensures
            s@ == stop_type_code(*self),
    {
        match self {
            StopType::Terminus => "D",
            StopType::Normal => "N",
            StopType::PartRoute => "P",
            StopType::Reference => "R",
        }
    }
}

/// Decoding inverts encoding: every stop type's own wire code names it.
pub proof fn lemma_stop_type_code_round_trip(t: StopType)
    ensures
        stop_type_of(stop_type_code(t)) == Some(t),
{
    reveal_strlit("D");
    reveal_strlit("N");
    reveal_strlit("P");
    reveal_strlit("R");
    match t {
        StopType::Terminus => {
            assert(stop_type_code(t) == "D"@);
            assert(stop_type_of("D"@) == Some(StopType::Terminus));
        },
        StopType::Normal => {
            assert(stop_type_code(t) == "N"@);
            lemma_one_char_seq_ne("N"@, "D"@);
            assert(stop_type_of("N"@) == Some(StopType::Normal));
        },
        StopType::PartRoute => {
            assert(stop_type_code(t) == "P"@);
            lemma_one_char_seq_ne("P"@, "D"@);
            lemma_one_char_seq_ne("P"@, "N"@);
            assert(stop_type_of("P"@) == Some(StopType::PartRoute));
        },
        StopType::Reference => {
            assert(stop_type_code(t) == "R"@);
            lemma_one_char_seq_ne("R"@, "D"@);
            lemma_one_char_seq_ne("R"@, "N"@);
            lemma_one_char_seq_ne("R"@, "P"@);
            assert(stop_type_of("R"@) == Some(StopType::Reference));
        },
    }
}

/// The direction of travel of a service.
#[derive(Clone, Copy, Debug, PartialEq, Eq, Structural)]
pub enum Direction {
    Inbound,
    Outbound,
}

/// The direction named by a wire code, if any.
pub open spec fn direction_of(s: Seq<char>) -> Option<Direction> {
    if s == "A"@ {
        Some(Direction::Inbound)
    } else if s == "R"@ {
        Some(Direction::Outbound)
    } else {
        None
    }
}

/// The wire code for a direction.
pub open spec fn direction_code(d: Direction) -> Seq<char> {
    match d {
        Direction::Inbound => "A"@,
        Direction::Outbound => "R"@,
    }
}

impl Direction {
    /// Decode a direction from its wire code.
    pub fn from_code(s: &str) -> (r: Option<Direction>)
        ensures
            r == direction_of(s@),
    {
        if str_eq(s, "A") {
            Some(Direction::Inbound)
        } else if str_eq(s, "R") {
            Some(Direction::Outbound)
        } else {
            None
        }
    }

    /// The wire code for this direction.
    pub fn code(&self) -> (s: &'static str)
        ensures
            s@ == direction_code(*self),
    {
        match self {
            Direction::Inbound => "A",
            Direction::Outbound => "R",
        }
    }
}

/// Decoding inverts encoding: every direction's own wire code names it.
pub proof fn lemma_direction_code_round_trip(d: Direction)
    ensures
        direction_of(direction_code(d)) == Some(d),
{
    reveal_strlit("A");
    reveal_strlit("R");
    match d {
        Direction::Inbound => {
            assert(direction_code(d) == "A"@);
            assert(direction_of("A"@) == Some(Direction::Inbound));
        },
        Direction::Outbound => {
            assert(direction_code(d) == "R"@);
            lemma_one_char_seq_ne("R"@, "A"@);
            assert(direction_of("R"@) == Some(Direction::Outbound));
        },
    }
}

// ---------------------------------------------------------------------------
// Disruptions
// ---------------------------------------------------------------------------
/// The category of a disruption.
#[derive(Clone, Copy, Debug, PartialEq, Eq, Structural)]
pub enum DisruptionType {
    All,
    Network,
    Service,
    BusStop,
}

/// The disruption type named by a numeric wire value, if any.
pub open spec fn disruption_type_of(i: int) -> Option<DisruptionType> {
    if i == 0 {
        Some(DisruptionType::All)
    } else if i == 1 {
        Some(DisruptionType::Network)
    } else if i == 2 {
        Some(DisruptionType::Service)
    } else if i == 3 {
        Some(DisruptionType::BusStop)
    } else {
        None
    }
}

/// The numeric wire value for a disruption type.
pub open spec fn disruption_type_wire(t: DisruptionType) -> int {
    match t {
        DisruptionType::All => 0,
        DisruptionType::Network => 1,
        DisruptionType::Service => 2,
        DisruptionType::BusStop => 3,
    }
}

impl DisruptionType {
    /// Decode a disruption type from its numeric wire value.
    pub fn from_wire(i: u8) -> (r: Option<DisruptionType>)
        ensures
            r == disruption_type_of(i as int),
    {
        match i {
            0 => Some(DisruptionType::All),
            1 => Some(DisruptionType::Network),
            2 => Some(DisruptionType::Service),
            3 => Some(DisruptionType::BusStop),
            _ => None,
        }
    }

    /// The numeric wire value for this disruption type.
    pub fn wire(&self) -> (i: u8)
        ensures
            i as int == disruption_type_wire(*self),
    {
        match self {
            DisruptionType::All => 0,
            DisruptionType::Network => 1,
            DisruptionType::Service => 2,
            DisruptionType::BusStop => 3,
        }
    }

    /// The wire value for this disruption type as query-string text.
    pub fn code(&self) -> (s: &'static str)
        ensures
            s@ == seq![crate::strutil::digit_char(disruption_type_wire(*self))],
    {
        proof {
            reveal_strlit("0");
            reveal_strlit("1");
            reveal_strlit("2");
            reveal_strlit("3");
        }
        let s: &'static str = match self {
            DisruptionType::All => "0",
            DisruptionType::Network => "1",
            DisruptionType::Service => "2",
            DisruptionType::BusStop => "3",
        };
        proof {
            assert(s@ =~= seq![crate::strutil::digit_char(disruption_type_wire(*self))]);
        }
        s
    }
}

/// Decoding inverts encoding: every disruption type's wire value names it.
pub proof fn lemma_disruption_type_round_trip(t: DisruptionType)
    ensures
        disruption_type_of(disruption_type_wire(t)) == Some(t),
{
}

/// The severity of a disruption.
#[derive(Clone, Copy, Debug, PartialEq, Eq, Structural)]
pub enum DisruptionLevel {
    Informative,
    Minor,
    Major,
}

/// The disruption level named by a numeric wire value, if any.
pub open spec fn disruption_level_of(i: int) -> Option<DisruptionLevel> {
    if i == 1 {
        Some(DisruptionLevel::Informative)
    } else if i == 2 {
        Some(DisruptionLevel::Minor)
    } else if i == 3 {
        Some(DisruptionLevel::Major)
    } else {
        None
    }
}

/// The numeric wire value for a disruption level.
pub open spec fn disruption_level_wire(l: DisruptionLevel) -> int {
    match l {
        DisruptionLevel::Informative => 1,
        DisruptionLevel::Minor => 2,
        DisruptionLevel::Major => 3,
    }
}

impl DisruptionLevel {
    /// Decode a disruption level from its numeric wire value.
    pub fn from_wire(i: u8) -> (r: Option<DisruptionLevel>)
        ensures
            r == disruption_level_of(i as int),
    {
        match i {
            1 => Some(DisruptionLevel::Informative),
            2 => Some(DisruptionLevel::Minor),
            3 => Some(DisruptionLevel::Major),
            _ => None,
        }
    }

    /// The numeric wire value for this disruption level.
    pub fn wire(&self) -> (i: u8)
        ensures
            i as int == disruption_level_wire(*self),
    {
        match self {
            DisruptionLevel::Informative => 1,
            DisruptionLevel::Minor => 2,
            DisruptionLevel::Major => 3,
        }
    }
}

/// Decoding inverts encoding: every disruption level's wire value names it.
pub proof fn lemma_disruption_level_round_trip(l: DisruptionLevel)
    ensures
        disruption_level_of(disruption_level_wire(l)) == Some(l),
{
}

// ---------------------------------------------------------------------------
// Journey identifiers and modes
// ---------------------------------------------------------------------------
/// Exactly one of the two identifier kinds a journey may be looked up by.
#[derive(Clone, Debug)]
pub enum JourneyIdentifier {
    JourneyId(String),
    BusId(String),
}

/// The lookup mode for journey times.
#[derive(Clone, Copy, Debug, PartialEq, Eq, Structural)]
pub enum JourneyTimeMode {
    All,
    NextReference,
}

/// The wire code for a journey time mode.
pub open spec fn journey_time_mode_code(m: JourneyTimeMode) -> Seq<char> {
    match m {
        JourneyTimeMode::All => "0"@,
        JourneyTimeMode::NextReference => "1"@,
    }
}

impl JourneyTimeMode {
    /// The wire code for this mode.
    pub fn code(&self) -> (s: &'static str)
        ensures
            s@ == journey_time_mode_code(*self),
    {
        match self {
            JourneyTimeMode::All => "0",
            JourneyTimeMode::NextReference => "1",
        }
    }
}

// ---------------------------------------------------------------------------
// Time of day
// ---------------------------------------------------------------------------
/// A time of day with minute precision, carried on the wire as `HH:MM`.
#[derive(Clone, Copy, Debug, PartialEq, Eq, Structural)]
pub struct NaiveTimeExt {
    pub hour: u8,
    pub minute: u8,
}

impl NaiveTimeExt {
    /// Field ranges of a time of day.
    pub open spec fn wf(self) -> bool {
        &&& self.hour <= 23
        &&& self.minute <= 59
    }
}

/// Whether `c` is a decimal digit character.
pub open spec fn is_digit(c: char) -> bool {
    '0' <= c <= '9'
}

/// The value of a decimal digit character.
pub open spec fn digit_val(c: char) -> int {
    c as int - '0' as int
}

/// The time of day a `HH:MM` string denotes, if well-formed: exactly two
/// digits, a colon, and two digits, within the ranges of a clock.
pub open spec fn time_of(s: Seq<char>) -> Option<NaiveTimeExt> {
    if s.len() == 5 && is_digit(s[0]) && is_digit(s[1]) && s[2] == ':' && is_digit(s[3])
        && is_digit(s[4]) {
        let hour = digit_val(s[0]) * 10 + digit_val(s[1]);
        let minute = digit_val(s[3]) * 10 + digit_val(s[4]);
        if hour <= 23 && minute <= 59 {
            Some(NaiveTimeExt { hour: hour as u8, minute: minute as u8 })
        } else {
            None
        }
    } else {
        None
    }
}

/// The `HH:MM` rendering of a time of day.
pub open spec fn hhmm_chars(t: NaiveTimeExt) -> Seq<char> {
    dec2_of(t.hour as nat) + seq![':'] + dec2_of(t.minute as nat)
}

/// The value of a decimal digit character, or `None` for any other.
fn char_digit(c: char) -> (r: Option<u8>)
    ensures
        r is Some <==> is_digit(c),
        r matches Some(d) ==> d as int == digit_val(c),
{
    match c {
        '0' => Some(0),
        '1' => Some(1),
        '2' => Some(2),
        '3' => Some(3),
        '4' => Some(4),
        '5' => Some(5),
        '6' => Some(6),
        '7' => Some(7),
        '8' => Some(8),
        '9' => Some(9),
        _ => None,
    }
}

impl NaiveTimeExt {
    /// Parse a time of day from its `HH:MM` wire form, rejecting any
    /// malformed string or out-of-range clock value.
    pub fn parse(s: &str) -> (r: Option<NaiveTimeExt>)
        ensures
            r == time_of(s@),
            r matches Some(t) ==> t.wf(),
    {
        if s.unicode_len() != 5 {
            return None;
        }
        let c2 = s.get_char(2);
        if c2 != ':' {
            return None;
        }
        let d0 = char_digit(s.get_char(0));
        let d1 = char_digit(s.get_char(1));
        let d3 = char_digit(s.get_char(3));
        let d4 = char_digit(s.get_char(4));
        match (d0, d1, d3, d4) {
            (Some(h1), Some(h0), Some(m1), Some(m0)) => {
                let hour = h1 * 10 + h0;
                let minute = m1 * 10 + m0;
                if hour <= 23 && minute <= 59 {
                    Some(NaiveTimeExt { hour, minute })
                } else {
                    None
                }
            },
            _ => None,
        }
    }

    /// The `HH:MM` wire rendering of this time of day.
    pub fn hhmm(&self) -> (r: String)
        requires
            self.wf(),
        ensures
            r@ == hhmm_chars(*self),
    {
        let mut out = String::new();
        append_dec2(&mut out, self.hour);
        proof {
            reveal_strlit(":");
        }
        out.append(":");
        append_dec2(&mut out, self.minute);
        proof {
            assert(out@ =~= hhmm_chars(*self));
        }
        out
    }
}

/// Rendering inverts parsing: a well-formed time of day is recovered from
/// its own `HH:MM` rendering.
pub proof fn lemma_hhmm_round_trip(t: NaiveTimeExt)
    requires
        t.wf(),
    ensures
        time_of(hhmm_chars(t)) == Some(t),
{
    let s = hhmm_chars(t);
    assert(s[0] == crate::strutil::digit_char(t.hour as int / 10));
    assert(s[1] == crate::strutil::digit_char(t.hour as int % 10));
    assert(s[3] == crate::strutil::digit_char(t.minute as int / 10));
    assert(s[4] == crate::strutil::digit_char(t.minute as int % 10));
}

} // verus!


verus! {

// ---------------------------------------------------------------------------
// Request and response records
// ---------------------------------------------------------------------------
/// One timetable to request bus times for.
#[derive(Clone, Debug)]
pub struct Timetable {
    pub stop_id: String,
    pub service_reference: String,
    pub destination_reference: String,
    pub operator_id: Operator,
}

/// The bus times reported for the requested timetables.
#[derive(Clone, Debug)]
pub struct BusTimes {
    pub bus_times: Vec<BusTime>,
}

/// The times reported for one service at one stop.
#[derive(Clone, Debug)]
pub struct BusTime {
    pub operator_id: Operator,
    pub stop_id: String,
    pub stop_name: String,
    pub service_reference: String,
    pub service_mnemonic: String,
    pub service_name: String,
    pub destination_reference: Option<String>,
    pub destination_name: Option<String>,
    pub times: Vec<TimeData>,
    pub global_disruption: bool,
    pub service_disruption: bool,
    pub bus_stop_disruption: bool,
    pub service_diversion: bool,
}

/// One reported departure.
#[derive(Clone, Debug)]
pub struct TimeData {
    pub day: u8,
    pub time: String,
    pub minutes: u8,
    pub reliability: Reliability,
    pub stop_type: StopType,
    pub terminus: String,
    pub journey_id: String,
    pub bus_id: Option<String>,
}

/// The journey times reported for a journey lookup.
#[derive(Clone, Debug)]
pub struct JourneyTimes {
    pub journey_times: Vec<JourneyTime>,
}

/// The stops and times of one journey.
#[derive(Clone, Debug)]
pub struct JourneyTime {
    pub journey_id: String,
    pub bus_id: Option<String>,
    pub operator_id: Operator,
    pub service_reference: String,
    pub service_mnemonic: String,
    pub service_name: String,
    pub destination_reference: String,
    pub destination_name: String,
    pub journey_times: Vec<JourneyTimeData>,
    pub global_disruption: bool,
    pub service_disruption: bool,
    pub service_diversion: bool,
}

/// One stop on a journey, with its reported time of day.
#[derive(Clone, Debug)]
pub struct JourneyTimeData {
    pub order: u32,
    pub stop_id: String,
    pub stop_name: String,
    pub day: u32,
    pub time: NaiveTimeExt,
    pub minutes: i32,
    pub reliability: Reliability,
    pub stop_type: String,
    pub disruption: bool,
}

/// The identifier of the topology version in use.
#[derive(Clone, Debug)]
pub struct TopoId {
    pub topo_id: String,
    pub operator_id: Operator,
}

/// The services in operation.
#[derive(Clone, Debug)]
pub struct Services {
    pub services: Vec<Service>,
}

/// One service in operation.
#[derive(Clone, Debug)]
pub struct Service {
    pub reference: String,
    pub operator_id: Operator,
    pub mnemonic: String,
    pub name: String,
    pub destinations: Vec<String>,
}

/// The destinations served.
#[derive(Clone, Debug)]
pub struct Destinations {
    pub destinations: Vec<Destination>,
}

/// One destination of a service.
#[derive(Clone, Debug)]
pub struct Destination {
    pub reference: String,
    pub operator_id: Operator,
    pub name: String,
    pub direction: Direction,
    pub service: String,
}

/// The ongoing disruptions.
#[derive(Clone, Debug)]
pub struct Disruptions {
    pub disruptions: Vec<Disruption>,
}

/// One ongoing disruption.  Its expiry, when present, is carried as seconds
/// of the Unix epoch (UTC).
#[derive(Clone, Debug)]
pub struct Disruption {
    pub id: String,
    pub operator_id: Operator,
    pub level: DisruptionLevel,
    pub disruption_type: DisruptionType,
    pub targets: Vec<String>,
    pub valid_until: Option<i64>,
    pub message: String,
}

/// The ongoing diversions.
#[derive(Clone, Debug)]
pub struct Diversions {
    pub diversions: Vec<Diversion>,
}

/// One ongoing diversion.  Its start and end are carried as seconds of the
/// Unix epoch (UTC).
#[derive(Clone, Debug)]
pub struct Diversion {
    pub diversion_reference: String,
    pub diversion_id: String,
    pub operator_id: Operator,
    pub service_reference: String,
    pub start_stop_id: String,
    pub start_stop_name: String,
    pub start_date: i64,
    pub end_stop_id: String,
    pub end_stop_name: String,
    pub end_date: i64,
    pub days: String,
    pub length: u32,
    pub time_shift: i32,
    pub cancelled_bus_stops: Vec<CancelledBusStop>,
    pub temporary_bus_stops: Vec<TemporaryBusStop>,
}

/// A bus stop cancelled by a diversion, with its replacement.
#[derive(Clone, Debug)]
pub struct CancelledBusStop {
    pub stop_id: String,
    pub stop_name: String,
    pub replaced_stop_id: String,
    pub replaced_stop_name: String,
}

/// A temporary bus stop put in place by a diversion.
#[derive(Clone, Debug)]
pub struct TemporaryBusStop {
    pub stop_id: String,
    pub stop_name: String,
    pub stop_number: u32,
    pub stop_type: String,
}

} // verus!
