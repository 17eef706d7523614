//! Zone identifiers, refinement levels, relative depths and zones.
use crate::error::{join3, GeoPlegmaError};
use crate::geometry::{Point, Polygon, SquareMeters};
use crate::text::{
    all_ascii_digits, all_hex_digits, canonical_decimal, chars_of, check_all_hex_digits,
    decimal_digits, decimal_of, decimal_value, hex_value, is_ascii_digit, is_hex_digit,
    lemma_decimal_digits_value, lemma_decimal_value_digits, lemma_hex_fits, lemma_trimmed_fixed,
    parse_decimal, parse_decimal_spec, string_of, trim, trimmed,
};
use vstd::prelude::*;

verus! {

/// The most characters that a hexadecimal zone identifier holds.
pub const MAX_HEX_ID_LEN: usize = 16;

/// The most characters that a textual zone identifier holds.
pub const MAX_STR_ID_LEN: usize = 32;

/// `s` can be a hexadecimal zone identifier: 1 to 16 hexadecimal digits.
pub open spec fn valid_hex_text(s: Seq<char>) -> bool {
    1 <= s.len() <= 16 && all_hex_digits(s)
}

/// `s` can be a textual zone identifier: 1 to 32 characters.
pub open spec fn valid_str_text(s: Seq<char>) -> bool {
    1 <= s.len() <= 32
}

/// A text of 1 to 16 hexadecimal digits.
#[derive(Debug, Eq, Hash)]
pub struct HexString(String);

impl PartialEq for HexString {
    fn eq(&self, other: &Self) -> (r: bool) {
        self.0 == other.0
    }
}

impl vstd::std_specs::cmp::PartialEqSpecImpl for HexString {
    open spec fn obeys_eq_spec() -> bool {
        true
    }

    open spec fn eq_spec(&self, other: &Self) -> bool {
        self@ == other@
    }
}

impl Clone for HexString {
    fn clone(&self) -> (r: Self)
        ensures
            r@ == self@,
    {
        proof {
            use_type_invariant(self);
        }
        HexString(self.0.clone())
    }
}

impl View for HexString {
    type V = Seq<char>;

    closed spec fn view(&self) -> Seq<char> {
        self.0@
    }
}

impl HexString {
    #[verifier::type_invariant]
    spec fn well_formed(self) -> bool {
        valid_hex_text(self.0@)
    }

    /// Accepts exactly the texts of 1 to 16 hexadecimal digits.
    pub fn new(s: &str) -> (r: Result<Self, String>)
        ensures
            valid_hex_text(s@) <==> r is Ok,
            r matches Ok(h) ==> h@ == s@,
    {
        let chars = chars_of(s);
        if chars.len() >= 1 && chars.len() <= MAX_HEX_ID_LEN && check_all_hex_digits(&chars) {
            Ok(Self(s.to_owned()))
        } else {
            Err("HexId can have a maximum length of 16 hexadecimal characters.".to_owned())
        }
    }

    /// The digits.
    pub fn as_str(&self) -> (r: &str)
        ensures
            r@ == self@,
            valid_hex_text(r@),
    {
        proof {
            use_type_invariant(self);
        }
        self.0.as_str()
    }

    /// The 64-bit number that the digits write.
    pub fn value(&self) -> (v: u64)
        ensures
            v == hex_value(self@),
    {
        proof {
            use_type_invariant(self);
            lemma_hex_fits(self@);
        }
        let chars = chars_of(self.0.as_str());
        match crate::text::parse_hex(&chars) {
            Some(v) => v,
            None => 0,
        }
    }
}

/// What a zone identifier is: its kind, and its text or number.
pub enum ZoneIdView {
    StrId(Seq<char>),
    HexId(Seq<char>),
    IntId(u64),
}

impl ZoneIdView {
    /// The bare text of the identifier, without a mark of its kind.
    pub open spec fn text(self) -> Seq<char> {
        match self {
            ZoneIdView::StrId(s) => s,
            ZoneIdView::HexId(s) => s,
            ZoneIdView::IntId(i) => decimal_digits(i as nat),
        }
    }
}

/// The identifier of a zone: an opaque label, a hexadecimal code or a packed number.
#[derive(Debug, Eq, Hash)]
pub enum ZoneId {
    StrId(String),
    HexId(HexString),
    IntId(u64),
}

impl PartialEq for ZoneId {
    fn eq(&self, other: &Self) -> (r: bool) {
        match (self, other) {
            (ZoneId::StrId(a), ZoneId::StrId(b)) => *a == *b,
            (ZoneId::HexId(a), ZoneId::HexId(b)) => *a == *b,
            (ZoneId::IntId(a), ZoneId::IntId(b)) => *a == *b,
            _ => false,
        }
    }
}

impl vstd::std_specs::cmp::PartialEqSpecImpl for ZoneId {
    open spec fn obeys_eq_spec() -> bool {
        true
    }

    open spec fn eq_spec(&self, other: &Self) -> bool {
        self@ == other@
    }
}

impl Clone for ZoneId {
    fn clone(&self) -> (r: Self)
        ensures
            r@ == self@,
    {
        match self {
            ZoneId::StrId(s) => ZoneId::StrId(s.clone()),
            ZoneId::HexId(h) => ZoneId::HexId(h.clone()),
            ZoneId::IntId(i) => ZoneId::IntId(*i),
        }
    }
}

impl View for ZoneId {
    type V = ZoneIdView;

    open spec fn view(&self) -> ZoneIdView {
        match self {
            ZoneId::StrId(s) => ZoneIdView::StrId(s@),
            ZoneId::HexId(h) => ZoneIdView::HexId(h@),
            ZoneId::IntId(i) => ZoneIdView::IntId(*i),
        }
    }
}

/// What parsing a free text gives: a number for a decimal numeral of 64 bits,
/// else a hexadecimal code for 1 to 16 hexadecimal digits, else a label for 1
/// to 32 characters, else nothing. White space around the text does not count.
pub open spec fn parse_zone_id(s: Seq<char>) -> Option<ZoneIdView> {
    let t = trimmed(s);
    if parse_decimal_spec(t) is Some {
        Some(ZoneIdView::IntId(parse_decimal_spec(t)->Some_0))
    } else if valid_hex_text(t) {
        Some(ZoneIdView::HexId(t))
    } else if valid_str_text(t) {
        Some(ZoneIdView::StrId(t))
    } else {
        None
    }
}

impl ZoneId {
    /// A label of 1 to 32 characters.
    pub fn new_str(s: &str) -> (r: Result<Self, GeoPlegmaError>)
        ensures
            valid_str_text(s@) ==> r is Ok && r->Ok_0@ == ZoneIdView::StrId(s@),
            !valid_str_text(s@) ==> r matches Err(GeoPlegmaError::UnsupportedZoneIdFormat(_)),
    {
        let n = s.unicode_len();
        if 1 <= n && n <= MAX_STR_ID_LEN {
            Ok(ZoneId::StrId(s.to_owned()))
        } else {
            Err(
                GeoPlegmaError::UnsupportedZoneIdFormat(
                    join3("StrId must be between 1 and 32 characters got '", s, "'"),
                ),
            )
        }
    }

    /// A hexadecimal code of 1 to 16 digits.
    pub fn new_hex(s: &str) -> (r: Result<Self, GeoPlegmaError>)
        ensures
            valid_hex_text(s@) ==> r is Ok && r->Ok_0@ == ZoneIdView::HexId(s@),
            !valid_hex_text(s@) ==> r matches Err(GeoPlegmaError::InvalidHexId(_)),
    {
        match HexString::new(s) {
            Ok(h) => Ok(ZoneId::HexId(h)),
            Err(e) => Err(GeoPlegmaError::InvalidHexId(e)),
        }
    }

    /// A packed 64-bit number.
    pub fn new_int(id: u64) -> (r: Self)
        ensures
            r@ == ZoneIdView::IntId(id),
    {
        ZoneId::IntId(id)
    }

    /// The label, where the identifier is one.
    pub fn as_str(&self) -> (r: Option<&str>)
        ensures
            match self@ {
                ZoneIdView::StrId(s) => r is Some && r->Some_0@ == s,
                _ => r is None,
            },
    {
        match self {
            ZoneId::StrId(s) => Some(s.as_str()),
            _ => None,
        }
    }

    /// The hexadecimal code, where the identifier is one.
    pub fn as_hex(&self) -> (r: Option<&HexString>)
        ensures
            match self@ {
                ZoneIdView::HexId(s) => r is Some && r->Some_0@ == s && valid_hex_text(s),
                _ => r is None,
            },
    {
        match self {
            ZoneId::HexId(h) => {
                proof {
                    use_type_invariant(h);
                }
                Some(h)
            },
            _ => None,
        }
    }

    /// The number, where the identifier is one.
    pub fn as_u64(&self) -> (r: Option<u64>)
        ensures
            match self@ {
                ZoneIdView::IntId(i) => r == Some(i),
                _ => r is None,
            },
    {
        match self {
            ZoneId::IntId(i) => Some(*i),
            _ => None,
        }
    }

    /// Reads an identifier from free text.
    pub fn from_str(s: &str) -> (r: Result<Self, GeoPlegmaError>)
        ensures
            match parse_zone_id(s@) {
                Some(v) => r is Ok && r->Ok_0@ == v,
                None => r matches Err(GeoPlegmaError::UnsupportedZoneIdFormat(_)),
            },
    {
        let t = trim(&chars_of(s));
        match parse_decimal(&t) {
            Some(v) => return Ok(ZoneId::new_int(v)),
            None => {},
        }
        let text = string_of(&t);
        if t.len() >= 1 && check_all_hex_digits(&t) {
            match ZoneId::new_hex(text.as_str()) {
                Ok(h) => return Ok(h),
                Err(_) => {},
            }
        }
        ZoneId::new_str(text.as_str())
    }

    /// The bare text of the identifier.
    pub fn to_string(&self) -> (s: String)
        ensures
            s@ == self@.text(),
    {
        match self {
            ZoneId::StrId(s) => s.clone(),
            ZoneId::HexId(h) => h.as_str().to_owned(),
            ZoneId::IntId(i) => string_of(&decimal_of(*i)),
        }
    }
}

/// An absolute depth in the hierarchy of a grid; never negative.
#[derive(Debug, Copy, Clone, PartialEq, Eq, Structural, PartialOrd, Ord)]
pub struct RefinementLevel(i32);

impl View for RefinementLevel {
    type V = int;

    closed spec fn view(&self) -> int {
        self.0 as int
    }
}

/// The refinement level of depth `v`, for `v` that a level can hold.
pub closed spec fn refinement_level(v: int) -> RefinementLevel {
    RefinementLevel(v as i32)
}

/// `refinement_level(v)` is the level whose depth is `v`.
pub proof fn lemma_refinement_level(v: int)
    requires
        0 <= v <= i32::MAX,
    ensures
        refinement_level(v)@ == v,
{
}

impl RefinementLevel {
    #[verifier::type_invariant]
    spec fn well_formed(self) -> bool {
        self.0 >= 0
    }

    /// The level of depth `value`; fails for a negative depth.
    pub fn new(value: i32) -> (r: Result<Self, GeoPlegmaError>)
        ensures
            value >= 0 ==> r is Ok && r->Ok_0@ == value,
            value < 0 ==> (r matches Err(GeoPlegmaError::DepthBelowZero(v)) && v == value),
    {
        if value < 0 {
            Err(GeoPlegmaError::DepthBelowZero(value))
        } else {
            Ok(Self(value))
        }
    }

    /// The depth.
    pub fn get(self) -> (r: i32)
        ensures
            r == self@,
            r >= 0,
    {
        proof {
            use_type_invariant(self);
        }
        self.0
    }

    /// The level that lies `rd` below this one; the sum stops at the largest depth.
    pub fn add(self, rd: RelativeDepth) -> (r: Result<Self, GeoPlegmaError>)
        ensures
            r is Ok,
            r->Ok_0@ == if self@ + rd@ <= i32::MAX {
                self@ + rd@
            } else {
                i32::MAX as int
            },
    {
        proof {
            use_type_invariant(self);
            use_type_invariant(rd);
        }
        let sum = if self.0 > i32::MAX - rd.0 {
            i32::MAX
        } else {
            self.0 + rd.0
        };
        RefinementLevel::new(sum)
    }

    /// The level of a depth known not to be negative.
    pub fn new_const(val: i32) -> (r: Self)
        requires
            val >= 0,
        ensures
            r@ == val,
    {
        Self(val)
    }

    /// The depth in decimal digits.
    pub fn to_string(&self) -> (s: String)
        ensures
            s@ == decimal_digits(self@ as nat),
    {
        proof {
            use_type_invariant(self);
        }
        string_of(&decimal_of(self.0 as u64))
    }

    /// The level of a small depth.
    pub fn from_u8(value: u8) -> (r: Self)
        ensures
            r@ == value,
    {
        Self(value as i32)
    }

    /// The depth as a small number; fails where it is above 255.
    pub fn to_u8(self) -> (r: Result<u8, GeoPlegmaError>)
        ensures
            self@ <= u8::MAX ==> r == Ok::<u8, GeoPlegmaError>(self@ as u8),
            self@ > u8::MAX ==> (r matches Err(GeoPlegmaError::RefinementLevelTooHigh(l)) && l
                == self),
    {
        proof {
            use_type_invariant(self);
        }
        if self.0 <= 255 {
            Ok(self.0 as u8)
        } else {
            Err(GeoPlegmaError::RefinementLevelTooHigh(self))
        }
    }
}

impl From<u8> for RefinementLevel {
    fn from(value: u8) -> (r: Self) {
        Self(value as i32)
    }
}

impl vstd::std_specs::convert::FromSpecImpl<u8> for RefinementLevel {
    open spec fn obeys_from_spec() -> bool {
        true
    }

    open spec fn from_spec(v: u8) -> Self {
        refinement_level(v as int)
    }
}

impl TryFrom<i32> for RefinementLevel {
    type Error = GeoPlegmaError;

    fn try_from(value: i32) -> (r: Result<Self, GeoPlegmaError>) {
        RefinementLevel::new(value)
    }
}

impl vstd::std_specs::convert::TryFromSpecImpl<i32> for RefinementLevel {
    open spec fn obeys_try_from_spec() -> bool {
        true
    }

    open spec fn try_from_spec(value: i32) -> Result<Self, GeoPlegmaError> {
        if value < 0 {
            Err(GeoPlegmaError::DepthBelowZero(value))
        } else {
            Ok(refinement_level(value as int))
        }
    }
}

impl TryFrom<RefinementLevel> for u8 {
    type Error = GeoPlegmaError;

    fn try_from(d: RefinementLevel) -> (r: Result<u8, GeoPlegmaError>) {
        d.to_u8()
    }
}

impl vstd::std_specs::convert::TryFromSpecImpl<RefinementLevel> for u8 {
    open spec fn obeys_try_from_spec() -> bool {
        true
    }

    open spec fn try_from_spec(d: RefinementLevel) -> Result<u8, GeoPlegmaError> {
        if d@ <= u8::MAX {
            Ok(d@ as u8)
        } else {
            Err(GeoPlegmaError::RefinementLevelTooHigh(d))
        }
    }
}

impl From<RefinementLevel> for i32 {
    fn from(d: RefinementLevel) -> (r: i32) {
        d.get()
    }
}

impl vstd::std_specs::convert::FromSpecImpl<RefinementLevel> for i32 {
    open spec fn obeys_from_spec() -> bool {
        true
    }

    open spec fn from_spec(d: RefinementLevel) -> i32 {
        d@ as i32
    }
}

/// A depth below a parent zone; never negative.
#[derive(Debug, Copy, Clone, PartialEq, Eq, Structural, PartialOrd, Ord)]
pub struct RelativeDepth(i32);

impl View for RelativeDepth {
    type V = int;

    closed spec fn view(&self) -> int {
        self.0 as int
    }
}

/// The relative depth `v`, for `v` that a depth can hold.
pub closed spec fn relative_depth(v: int) -> RelativeDepth {
    RelativeDepth(v as i32)
}

/// `relative_depth(v)` is the depth `v`.
pub proof fn lemma_relative_depth(v: int)
    requires
        0 <= v <= i32::MAX,
    ensures
        relative_depth(v)@ == v,
{
}

impl RelativeDepth {
    #[verifier::type_invariant]
    spec fn well_formed(self) -> bool {
        self.0 >= 0
    }

    /// The relative depth `value`; fails for a negative one.
    pub fn new(value: i32) -> (r: Result<Self, GeoPlegmaError>)
        ensures
            value >= 0 ==> r is Ok && r->Ok_0@ == value,
            value < 0 ==> (r matches Err(GeoPlegmaError::RelativeDepthBelowZero(v)) && v == value),
    {
        if value < 0 {
            Err(GeoPlegmaError::RelativeDepthBelowZero(value))
        } else {
            Ok(Self(value))
        }
    }

    /// The depth.
    pub fn get(self) -> (r: i32)
        ensures
            r == self@,
            r >= 0,
    {
        proof {
            use_type_invariant(self);
        }
        self.0
    }

    /// The relative depth of a number known not to be negative.
    pub fn new_const(val: i32) -> (r: Self)
        requires
            val >= 0,
        ensures
            r@ == val,
    {
        Self(val)
    }

    /// The depth in decimal digits.
    pub fn to_string(&self) -> (s: String)
        ensures
            s@ == decimal_digits(self@ as nat),
    {
        proof {
            use_type_invariant(self);
        }
        string_of(&decimal_of(self.0 as u64))
    }

    /// A small relative depth.
    pub fn from_u8(value: u8) -> (r: Self)
        ensures
            r@ == value,
    {
        Self(value as i32)
    }

    /// The depth as a small number; fails where it is above 255.
    pub fn to_u8(self) -> (r: Result<u8, GeoPlegmaError>)
        ensures
            self@ <= u8::MAX ==> r == Ok::<u8, GeoPlegmaError>(self@ as u8),
            self@ > u8::MAX ==> (r matches Err(GeoPlegmaError::RelativeDepthTooLarge(d)) && d
                == self),
    {
        proof {
            use_type_invariant(self);
        }
        if self.0 <= 255 {
            Ok(self.0 as u8)
        } else {
            Err(GeoPlegmaError::RelativeDepthTooLarge(self))
        }
    }
}

impl From<u8> for RelativeDepth {
    fn from(value: u8) -> (r: Self) {
        Self(value as i32)
    }
}

impl vstd::std_specs::convert::FromSpecImpl<u8> for RelativeDepth {
    open spec fn obeys_from_spec() -> bool {
        true
    }

    open spec fn from_spec(v: u8) -> Self {
        relative_depth(v as int)
    }
}

impl TryFrom<i32> for RelativeDepth {
    type Error = GeoPlegmaError;

    fn try_from(value: i32) -> (r: Result<Self, GeoPlegmaError>) {
        RelativeDepth::new(value)
    }
}

impl vstd::std_specs::convert::TryFromSpecImpl<i32> for RelativeDepth {
    open spec fn obeys_try_from_spec() -> bool {
        true
    }

    open spec fn try_from_spec(value: i32) -> Result<Self, GeoPlegmaError> {
        if value < 0 {
            Err(GeoPlegmaError::RelativeDepthBelowZero(value))
        } else {
            Ok(relative_depth(value as int))
        }
    }
}

impl TryFrom<RelativeDepth> for u8 {
    type Error = GeoPlegmaError;

    fn try_from(rd: RelativeDepth) -> (r: Result<u8, GeoPlegmaError>) {
        rd.to_u8()
    }
}

impl vstd::std_specs::convert::TryFromSpecImpl<RelativeDepth> for u8 {
    open spec fn obeys_try_from_spec() -> bool {
        true
    }

    open spec fn try_from_spec(rd: RelativeDepth) -> Result<u8, GeoPlegmaError> {
        if rd@ <= u8::MAX {
            Ok(rd@ as u8)
        } else {
            Err(GeoPlegmaError::RelativeDepthTooLarge(rd))
        }
    }
}

impl From<RelativeDepth> for i32 {
    fn from(rd: RelativeDepth) -> (r: i32) {
        rd.get()
    }
}

impl vstd::std_specs::convert::FromSpecImpl<RelativeDepth> for i32 {
    open spec fn obeys_from_spec() -> bool {
        true
    }

    open spec fn from_spec(rd: RelativeDepth) -> i32 {
        rd@ as i32
    }
}

/// Decimal digits are worth no more in base ten than in base sixteen.
proof fn lemma_decimal_below_hex(s: Seq<char>)
    requires
        all_ascii_digits(s),
    ensures
        all_hex_digits(s),
        decimal_value(s) <= hex_value(s),
    decreases s.len(),
{
    assert forall|i: int| 0 <= i < s.len() implies is_hex_digit(#[trigger] s[i]) by {
        assert(is_ascii_digit(s[i]));
    }
    if s.len() > 0 {
        let p = s.drop_last();
        assert forall|i: int| 0 <= i < p.len() implies is_ascii_digit(#[trigger] p[i]) by {
            assert(p[i] == s[i]);
        }
        lemma_decimal_below_hex(p);
        assert(is_ascii_digit(s.last()));
    }
}

/// Parsing a hexadecimal code of at most sixteen digits and writing the
/// result out again gives the code. A code made of decimal digits alone is
/// read as a number, so it comes back only where it is that number's
/// shortest numeral, which is what `requires` asks of such a code.
pub proof fn law_hex_text_round_trip(h: Seq<char>)
    requires
        valid_hex_text(h),
        all_ascii_digits(h) ==> canonical_decimal(h),
    ensures
        parse_zone_id(h) is Some,
        parse_zone_id(h)->Some_0.text() == h,
{
    assert(is_hex_digit(h[0]) && is_hex_digit(h.last()));
    lemma_trimmed_fixed(h);
    if all_ascii_digits(h) {
        lemma_decimal_below_hex(h);
        lemma_hex_fits(h);
        lemma_decimal_value_digits(h);
    }
}

/// Writing a 64-bit number out as an identifier and parsing the text gives
/// the identifier of that number.
pub proof fn law_int_round_trip(n: u64)
    ensures
        parse_zone_id(ZoneIdView::IntId(n).text()) == Some(ZoneIdView::IntId(n)),
{
    let d = decimal_digits(n as nat);
    lemma_decimal_digits_value(n as nat);
    assert(is_ascii_digit(d[0]) && is_ascii_digit(d.last()));
    lemma_trimmed_fixed(d);
}

/// The views of a run of identifiers.
pub open spec fn id_views(ids: Seq<ZoneId>) -> Seq<ZoneIdView> {
    ids.map_values(|z: ZoneId| z@)
}

/// One cell of a grid. Every field but the identifier is there only where
/// the query asked for it.
#[derive(Debug, Clone)]
pub struct Zone {
    pub id: ZoneId,
    /// The boundary, in degrees, first vertex repeated at the end.
    pub region: Option<Polygon>,
    /// The centroid, in degrees.
    pub center: Option<Point>,
    /// The number of corners, which is the number of edges.
    pub vertex_count: Option<u32>,
    pub children: Option<Vec<ZoneId>>,
    pub neighbors: Option<Vec<ZoneId>>,
    pub area_sqm: Option<SquareMeters>,
}

impl Zone {
    /// A zone of which only the identifier is known.
    pub fn bare(id: ZoneId) -> (z: Self)
        ensures
            z.id == id,
            z.only_id(),
    {
        Zone {
            id,
            region: None,
            center: None,
            vertex_count: None,
            children: None,
            neighbors: None,
            area_sqm: None,
        }
    }

    /// No field but the identifier is populated.
    pub open spec fn only_id(&self) -> bool {
        &&& self.region is None
        &&& self.center is None
        &&& self.vertex_count is None
        &&& self.children is None
        &&& self.neighbors is None
        &&& self.area_sqm is None
    }
}

impl Default for Zone {
    fn default() -> (z: Self)
        ensures
            z.id@ == ZoneIdView::HexId("0000000000000000"@),
            z.only_id(),
    {
        Zone::bare(ZoneId::default())
    }
}

/// Zones in the order in which the backend listed them.
#[derive(Debug, Clone)]
pub struct Zones {
    pub zones: Vec<Zone>,
}

impl Default for Zones {
    fn default() -> (z: Self)
        ensures
            z.zones@.len() == 0,
    {
        Zones { zones: Vec::new() }
    }
}

impl std::str::FromStr for ZoneId {
    type Err = GeoPlegmaError;

    /// Reads an identifier from free text, as the function of the same name
    /// of `ZoneId` does.
    fn from_str(s: &str) -> (r: Result<Self, GeoPlegmaError>)
        ensures
            match parse_zone_id(s@) {
                Some(v) => r is Ok && r->Ok_0@ == v,
                None => r matches Err(GeoPlegmaError::UnsupportedZoneIdFormat(_)),
            },
    {
        ZoneId::from_str(s)
    }
}

impl Default for ZoneId {
    /// The hexadecimal code of sixteen zeros.
    fn default() -> (r: Self)
        ensures
            r@ == ZoneIdView::HexId("0000000000000000"@),
    {
        proof {
            reveal_strlit("0000000000000000");
        }
        ZoneId::HexId(HexString("0000000000000000".to_owned()))
    }
}

} // verus!
