//! Enumerations of the commerce API, with their protobuf names and numbers.
use vstd::prelude::*;
use crate::text::str_equal;

verus! {

/// Sort direction of a listing.
#[derive(Clone, Copy, Debug, PartialEq, Eq, Structural)]
pub enum Direction {
    Unspecified,
    Asc,
    Desc,
}

impl Direction {
    /// The protobuf name of each variant.
    pub open spec fn spec_as_str_name(self) -> Seq<char> {
        match self {
            Direction::Unspecified => "DIRECTION_UNSPECIFIED"@,
            Direction::Asc => "DIRECTION_ASC"@,
            Direction::Desc => "DIRECTION_DESC"@,
        }
    }

    /// The variant whose protobuf name is `s`, if any.
    pub open spec fn spec_from_str_name(s: Seq<char>) -> Option<Direction> {
        if s == "DIRECTION_UNSPECIFIED"@ {
            Some(Direction::Unspecified)
        } else if s == "DIRECTION_ASC"@ {
            Some(Direction::Asc)
        } else if s == "DIRECTION_DESC"@ {
            Some(Direction::Desc)
        } else {
            None
        }
    }

    /// The protobuf number of each variant.
    pub open spec fn spec_to_i32(self) -> i32 {
        match self {
            Direction::Unspecified => 0i32,
            Direction::Asc => 1i32,
            Direction::Desc => 2i32,
        }
    }

    /// The variant whose protobuf number is `n`, if any.
    pub open spec fn spec_from_i32(n: i32) -> Option<Direction> {
        if n == 0 {
            Some(Direction::Unspecified)
        } else if n == 1 {
            Some(Direction::Asc)
        } else if n == 2 {
            Some(Direction::Desc)
        } else {
            None
        }
    }

    /// String value of the enum field names used in the ProtoBuf definition.
    pub fn as_str_name(&self) -> (r: &'static str)
        ensures
            r@ == self.spec_as_str_name(),
    {
        match self {
            Direction::Unspecified => "DIRECTION_UNSPECIFIED",
            Direction::Asc => "DIRECTION_ASC",
            Direction::Desc => "DIRECTION_DESC",
        }
    }

    /// Creates an enum from field names used in the ProtoBuf definition.
    pub fn from_str_name(value: &str) -> (r: Option<Direction>)
        ensures
            r == Self::spec_from_str_name(value@),
    {
        if str_equal(value, "DIRECTION_UNSPECIFIED") {
            Some(Direction::Unspecified)
        } else if str_equal(value, "DIRECTION_ASC") {
            Some(Direction::Asc)
        } else if str_equal(value, "DIRECTION_DESC") {
            Some(Direction::Desc)
        } else {
            None
        }
    }

    /// The protobuf number of this variant.
    pub fn to_i32(&self) -> (r: i32)
        ensures
            r == self.spec_to_i32(),
    {
        match self {
            Direction::Unspecified => 0,
            Direction::Asc => 1,
            Direction::Desc => 2,
        }
    }

    /// The variant with protobuf number `value`, if it is one.
    pub fn from_i32(value: i32) -> (r: Option<Direction>)
        ensures
            r == Self::spec_from_i32(value),
    {
        if value == 0 {
            Some(Direction::Unspecified)
        } else if value == 1 {
            Some(Direction::Asc)
        } else if value == 2 {
            Some(Direction::Desc)
        } else {
            None
        }
    }

    /// The variant that a protobuf getter yields for the raw number `value`:
    /// the variant with that number, or `Unspecified` for an unknown one.
    pub fn from_i32_or_default(value: i32) -> (r: Direction)
        ensures
            r == (match Self::spec_from_i32(value) {
                Some(v) => v,
                None => Direction::Unspecified,
            }),
    {
        match Self::from_i32(value) {
            Some(v) => v,
            None => Direction::Unspecified,
        }
    }
}

/// Reading back the protobuf name of a variant of `Direction` gives that variant,
/// and a name is read as a variant only when it is that variant's name.
pub proof fn lemma_direction_name_round_trip(v: Direction, s: Seq<char>)
    ensures
        Direction::spec_from_str_name(v.spec_as_str_name()) == Some(v),
        Direction::spec_from_str_name(s) == Some(v) ==> v.spec_as_str_name() == s,
{
    reveal_strlit("DIRECTION_UNSPECIFIED");
    reveal_strlit("DIRECTION_ASC");
    reveal_strlit("DIRECTION_DESC");
    assert("DIRECTION_UNSPECIFIED"@.len() == 21);
    assert("DIRECTION_ASC"@.len() == 13);
    assert("DIRECTION_DESC"@.len() == 14);
}

/// Reading back the protobuf number of a variant of `Direction` gives that variant,
/// and a number is read as a variant only when it is that variant's number.
pub proof fn lemma_direction_number_round_trip(v: Direction, n: i32)
    ensures
        Direction::spec_from_i32(v.spec_to_i32()) == Some(v),
        Direction::spec_from_i32(n) == Some(v) ==> v.spec_to_i32() == n,
{
}

/// Field by which market booths are ordered.
#[derive(Clone, Copy, Debug, PartialEq, Eq, Structural)]
pub enum MarketBoothsOrderByField {
    Unspecified,
    CreatedAt,
    UpdatedAt,
    Name,
    Random,
}

impl MarketBoothsOrderByField {
    /// The protobuf name of each variant.
    pub open spec fn spec_as_str_name(self) -> Seq<char> {
        match self {
            MarketBoothsOrderByField::Unspecified => "MARKET_BOOTHS_ORDER_BY_FIELD_UNSPECIFIED"@,
            MarketBoothsOrderByField::CreatedAt => "MARKET_BOOTHS_ORDER_BY_FIELD_CREATED_AT"@,
            MarketBoothsOrderByField::UpdatedAt => "MARKET_BOOTHS_ORDER_BY_FIELD_UPDATED_AT"@,
            MarketBoothsOrderByField::Name => "MARKET_BOOTHS_ORDER_BY_FIELD_NAME"@,
            MarketBoothsOrderByField::Random => "MARKET_BOOTHS_ORDER_BY_FIELD_RANDOM"@,
        }
    }

    /// The variant whose protobuf name is `s`, if any.
    pub open spec fn spec_from_str_name(s: Seq<char>) -> Option<MarketBoothsOrderByField> {
        if s == "MARKET_BOOTHS_ORDER_BY_FIELD_UNSPECIFIED"@ {
            Some(MarketBoothsOrderByField::Unspecified)
        } else if s == "MARKET_BOOTHS_ORDER_BY_FIELD_CREATED_AT"@ {
            Some(MarketBoothsOrderByField::CreatedAt)
        } else if s == "MARKET_BOOTHS_ORDER_BY_FIELD_UPDATED_AT"@ {
            Some(MarketBoothsOrderByField::UpdatedAt)
        } else if s == "MARKET_BOOTHS_ORDER_BY_FIELD_NAME"@ {
            Some(MarketBoothsOrderByField::Name)
        } else if s == "MARKET_BOOTHS_ORDER_BY_FIELD_RANDOM"@ {
            Some(MarketBoothsOrderByField::Random)
        } else {
            None
        }
    }

    /// The protobuf number of each variant.
    pub open spec fn spec_to_i32(self) -> i32 {
        match self {
            MarketBoothsOrderByField::Unspecified => 0i32,
            MarketBoothsOrderByField::CreatedAt => 1i32,
            MarketBoothsOrderByField::UpdatedAt => 2i32,
            MarketBoothsOrderByField::Name => 3i32,
            MarketBoothsOrderByField::Random => 4i32,
        }
    }

    /// The variant whose protobuf number is `n`, if any.
    pub open spec fn spec_from_i32(n: i32) -> Option<MarketBoothsOrderByField> {
        if n == 0 {
            Some(MarketBoothsOrderByField::Unspecified)
        } else if n == 1 {
            Some(MarketBoothsOrderByField::CreatedAt)
        } else if n == 2 {
            Some(MarketBoothsOrderByField::UpdatedAt)
        } else if n == 3 {
            Some(MarketBoothsOrderByField::Name)
        } else if n == 4 {
            Some(MarketBoothsOrderByField::Random)
        } else {
            None
        }
    }

    /// String value of the enum field names used in the ProtoBuf definition.
    pub fn as_str_name(&self) -> (r: &'static str)
        ensures
            r@ == self.spec_as_str_name(),
    {
        match self {
            MarketBoothsOrderByField::Unspecified => "MARKET_BOOTHS_ORDER_BY_FIELD_UNSPECIFIED",
            MarketBoothsOrderByField::CreatedAt => "MARKET_BOOTHS_ORDER_BY_FIELD_CREATED_AT",
            MarketBoothsOrderByField::UpdatedAt => "MARKET_BOOTHS_ORDER_BY_FIELD_UPDATED_AT",
            MarketBoothsOrderByField::Name => "MARKET_BOOTHS_ORDER_BY_FIELD_NAME",
            MarketBoothsOrderByField::Random => "MARKET_BOOTHS_ORDER_BY_FIELD_RANDOM",
        }
    }

    /// Creates an enum from field names used in the ProtoBuf definition.
    pub fn from_str_name(value: &str) -> (r: Option<MarketBoothsOrderByField>)
        ensures
            r == Self::spec_from_str_name(value@),
    {
        if str_equal(value, "MARKET_BOOTHS_ORDER_BY_FIELD_UNSPECIFIED") {
            Some(MarketBoothsOrderByField::Unspecified)
        } else if str_equal(value, "MARKET_BOOTHS_ORDER_BY_FIELD_CREATED_AT") {
            Some(MarketBoothsOrderByField::CreatedAt)
        } else if str_equal(value, "MARKET_BOOTHS_ORDER_BY_FIELD_UPDATED_AT") {
            Some(MarketBoothsOrderByField::UpdatedAt)
        } else if str_equal(value, "MARKET_BOOTHS_ORDER_BY_FIELD_NAME") {
            Some(MarketBoothsOrderByField::Name)
        } else if str_equal(value, "MARKET_BOOTHS_ORDER_BY_FIELD_RANDOM") {
            Some(MarketBoothsOrderByField::Random)
        } else {
            None
        }
    }

    /// The protobuf number of this variant.
    pub fn to_i32(&self) -> (r: i32)
        ensures
            r == self.spec_to_i32(),
    {
        match self {
            MarketBoothsOrderByField::Unspecified => 0,
            MarketBoothsOrderByField::CreatedAt => 1,
            MarketBoothsOrderByField::UpdatedAt => 2,
            MarketBoothsOrderByField::Name => 3,
            MarketBoothsOrderByField::Random => 4,
        }
    }

    /// The variant with protobuf number `value`, if it is one.
    pub fn from_i32(value: i32) -> (r: Option<MarketBoothsOrderByField>)
        ensures
            r == Self::spec_from_i32(value),
    {
        if value == 0 {
            Some(MarketBoothsOrderByField::Unspecified)
        } else if value == 1 {
            Some(MarketBoothsOrderByField::CreatedAt)
        } else if value == 2 {
            Some(MarketBoothsOrderByField::UpdatedAt)
        } else if value == 3 {
            Some(MarketBoothsOrderByField::Name)
        } else if value == 4 {
            Some(MarketBoothsOrderByField::Random)
        } else {
            None
        }
    }

    /// The variant that a protobuf getter yields for the raw number `value`:
    /// the variant with that number, or `Unspecified` for an unknown one.
    pub fn from_i32_or_default(value: i32) -> (r: MarketBoothsOrderByField)
        ensures
            r == (match Self::spec_from_i32(value) {
                Some(v) => v,
                None => MarketBoothsOrderByField::Unspecified,
            }),
    {
        match Self::from_i32(value) {
            Some(v) => v,
            None => MarketBoothsOrderByField::Unspecified,
        }
    }
}

/// Reading back the protobuf name of a variant of `MarketBoothsOrderByField` gives that variant,
/// and a name is read as a variant only when it is that variant's name.
pub proof fn lemma_market_booths_order_by_field_name_round_trip(v: MarketBoothsOrderByField, s: Seq<char>)
    ensures
        MarketBoothsOrderByField::spec_from_str_name(v.spec_as_str_name()) == Some(v),
        MarketBoothsOrderByField::spec_from_str_name(s) == Some(v) ==> v.spec_as_str_name() == s,
{
    reveal_strlit("MARKET_BOOTHS_ORDER_BY_FIELD_UNSPECIFIED");
    reveal_strlit("MARKET_BOOTHS_ORDER_BY_FIELD_CREATED_AT");
    reveal_strlit("MARKET_BOOTHS_ORDER_BY_FIELD_UPDATED_AT");
    reveal_strlit("MARKET_BOOTHS_ORDER_BY_FIELD_NAME");
    reveal_strlit("MARKET_BOOTHS_ORDER_BY_FIELD_RANDOM");
    assert("MARKET_BOOTHS_ORDER_BY_FIELD_UNSPECIFIED"@.len() == 40);
    assert("MARKET_BOOTHS_ORDER_BY_FIELD_CREATED_AT"@.len() == 39);
    assert("MARKET_BOOTHS_ORDER_BY_FIELD_UPDATED_AT"@.len() == 39);
    assert("MARKET_BOOTHS_ORDER_BY_FIELD_NAME"@.len() == 33);
    assert("MARKET_BOOTHS_ORDER_BY_FIELD_RANDOM"@.len() == 35);
    assert("MARKET_BOOTHS_ORDER_BY_FIELD_CREATED_AT"@[29] != "MARKET_BOOTHS_ORDER_BY_FIELD_UPDATED_AT"@[29]);
}

/// Reading back the protobuf number of a variant of `MarketBoothsOrderByField` gives that variant,
/// and a number is read as a variant only when it is that variant's number.
pub proof fn lemma_market_booths_order_by_field_number_round_trip(v: MarketBoothsOrderByField, n: i32)
    ensures
        MarketBoothsOrderByField::spec_from_i32(v.spec_to_i32()) == Some(v),
        MarketBoothsOrderByField::spec_from_i32(n) == Some(v) ==> v.spec_to_i32() == n,
{
}

/// Field on which market booths are filtered.
#[derive(Clone, Copy, Debug, PartialEq, Eq, Structural)]
pub enum MarketBoothsFilterField {
    Unspecified,
    Name,
    Description,
    NameAndDescription,
}

impl MarketBoothsFilterField {
    /// The protobuf name of each variant.
    pub open spec fn spec_as_str_name(self) -> Seq<char> {
        match self {
            MarketBoothsFilterField::Unspecified => "MARKET_BOOTHS_FILTER_FIELD_UNSPECIFIED"@,
            MarketBoothsFilterField::Name => "MARKET_BOOTHS_FILTER_FIELD_NAME"@,
            MarketBoothsFilterField::Description => "MARKET_BOOTHS_FILTER_FIELD_DESCRIPTION"@,
            MarketBoothsFilterField::NameAndDescription => "MARKET_BOOTHS_FILTER_FIELD_NAME_AND_DESCRIPTION"@,
        }
    }

    /// The variant whose protobuf name is `s`, if any.
    pub open spec fn spec_from_str_name(s: Seq<char>) -> Option<MarketBoothsFilterField> {
        if s == "MARKET_BOOTHS_FILTER_FIELD_UNSPECIFIED"@ {
            Some(MarketBoothsFilterField::Unspecified)
        } else if s == "MARKET_BOOTHS_FILTER_FIELD_NAME"@ {
            Some(MarketBoothsFilterField::Name)
        } else if s == "MARKET_BOOTHS_FILTER_FIELD_DESCRIPTION"@ {
            Some(MarketBoothsFilterField::Description)
        } else if s == "MARKET_BOOTHS_FILTER_FIELD_NAME_AND_DESCRIPTION"@ {
            Some(MarketBoothsFilterField::NameAndDescription)
        } else {
            None
        }
    }

    /// The protobuf number of each variant.
    pub open spec fn spec_to_i32(self) -> i32 {
        match self {
            MarketBoothsFilterField::Unspecified => 0i32,
            MarketBoothsFilterField::Name => 1i32,
            MarketBoothsFilterField::Description => 2i32,
            MarketBoothsFilterField::NameAndDescription => 3i32,
        }
    }

    /// The variant whose protobuf number is `n`, if any.
    pub open spec fn spec_from_i32(n: i32) -> Option<MarketBoothsFilterField> {
        if n == 0 {
            Some(MarketBoothsFilterField::Unspecified)
        } else if n == 1 {
            Some(MarketBoothsFilterField::Name)
        } else if n == 2 {
            Some(MarketBoothsFilterField::Description)
        } else if n == 3 {
            Some(MarketBoothsFilterField::NameAndDescription)
        } else {
            None
        }
    }

    /// String value of the enum field names used in the ProtoBuf definition.
    pub fn as_str_name(&self) -> (r: &'static str)
        ensures
            r@ == self.spec_as_str_name(),
    {
        match self {
            MarketBoothsFilterField::Unspecified => "MARKET_BOOTHS_FILTER_FIELD_UNSPECIFIED",
            MarketBoothsFilterField::Name => "MARKET_BOOTHS_FILTER_FIELD_NAME",
            MarketBoothsFilterField::Description => "MARKET_BOOTHS_FILTER_FIELD_DESCRIPTION",
            MarketBoothsFilterField::NameAndDescription => "MARKET_BOOTHS_FILTER_FIELD_NAME_AND_DESCRIPTION",
        }
    }

    /// Creates an enum from field names used in the ProtoBuf definition.
    pub fn from_str_name(value: &str) -> (r: Option<MarketBoothsFilterField>)
        ensures
            r == Self::spec_from_str_name(value@),
    {
        if str_equal(value, "MARKET_BOOTHS_FILTER_FIELD_UNSPECIFIED") {
            Some(MarketBoothsFilterField::Unspecified)
        } else if str_equal(value, "MARKET_BOOTHS_FILTER_FIELD_NAME") {
            Some(MarketBoothsFilterField::Name)
        } else if str_equal(value, "MARKET_BOOTHS_FILTER_FIELD_DESCRIPTION") {
            Some(MarketBoothsFilterField::Description)
        } else if str_equal(value, "MARKET_BOOTHS_FILTER_FIELD_NAME_AND_DESCRIPTION") {
            Some(MarketBoothsFilterField::NameAndDescription)
        } else {
            None
        }
    }

    /// The protobuf number of this variant.
    pub fn to_i32(&self) -> (r: i32)
        ensures
            r == self.spec_to_i32(),
    {
        match self {
            MarketBoothsFilterField::Unspecified => 0,
            MarketBoothsFilterField::Name => 1,
            MarketBoothsFilterField::Description => 2,
            MarketBoothsFilterField::NameAndDescription => 3,
        }
    }

    /// The variant with protobuf number `value`, if it is one.
    pub fn from_i32(value: i32) -> (r: Option<MarketBoothsFilterField>)
        ensures
            r == Self::spec_from_i32(value),
    {
        if value == 0 {
            Some(MarketBoothsFilterField::Unspecified)
        } else if value == 1 {
            Some(MarketBoothsFilterField::Name)
        } else if value == 2 {
            Some(MarketBoothsFilterField::Description)
        } else if value == 3 {
            Some(MarketBoothsFilterField::NameAndDescription)
        } else {
            None
        }
    }

    /// The variant that a protobuf getter yields for the raw number `value`:
    /// the variant with that number, or `Unspecified` for an unknown one.
    pub fn from_i32_or_default(value: i32) -> (r: MarketBoothsFilterField)
        ensures
            r == (match Self::spec_from_i32(value) {
                Some(v) => v,
                None => MarketBoothsFilterField::Unspecified,
            }),
    {
        match Self::from_i32(value) {
            Some(v) => v,
            None => MarketBoothsFilterField::Unspecified,
        }
    }
}

/// Reading back the protobuf name of a variant of `MarketBoothsFilterField` gives that variant,
/// and a name is read as a variant only when it is that variant's name.
pub proof fn lemma_market_booths_filter_field_name_round_trip(v: MarketBoothsFilterField, s: Seq<char>)
    ensures
        MarketBoothsFilterField::spec_from_str_name(v.spec_as_str_name()) == Some(v),
        MarketBoothsFilterField::spec_from_str_name(s) == Some(v) ==> v.spec_as_str_name() == s,
{
    reveal_strlit("MARKET_BOOTHS_FILTER_FIELD_UNSPECIFIED");
    reveal_strlit("MARKET_BOOTHS_FILTER_FIELD_NAME");
    reveal_strlit("MARKET_BOOTHS_FILTER_FIELD_DESCRIPTION");
    reveal_strlit("MARKET_BOOTHS_FILTER_FIELD_NAME_AND_DESCRIPTION");
    assert("MARKET_BOOTHS_FILTER_FIELD_UNSPECIFIED"@.len() == 38);
    assert("MARKET_BOOTHS_FILTER_FIELD_NAME"@.len() == 31);
    assert("MARKET_BOOTHS_FILTER_FIELD_DESCRIPTION"@.len() == 38);
    assert("MARKET_BOOTHS_FILTER_FIELD_NAME_AND_DESCRIPTION"@.len() == 47);
    assert("MARKET_BOOTHS_FILTER_FIELD_UNSPECIFIED"@[27] != "MARKET_BOOTHS_FILTER_FIELD_DESCRIPTION"@[27]);
}

/// Reading back the protobuf number of a variant of `MarketBoothsFilterField` gives that variant,
/// and a number is read as a variant only when it is that variant's number.
pub proof fn lemma_market_booths_filter_field_number_round_trip(v: MarketBoothsFilterField, n: i32)
    ensures
        MarketBoothsFilterField::spec_from_i32(v.spec_to_i32()) == Some(v),
        MarketBoothsFilterField::spec_from_i32(n) == Some(v) ==> v.spec_to_i32() == n,
{
}

/// Field by which offers are ordered.
#[derive(Clone, Copy, Debug, PartialEq, Eq, Structural)]
pub enum OffersOrderByField {
    Unspecified,
    CreatedAt,
    UpdatedAt,
    Name,
    Random,
}

impl OffersOrderByField {
    /// The protobuf name of each variant.
    pub open spec fn spec_as_str_name(self) -> Seq<char> {
        match self {
            OffersOrderByField::Unspecified => "OFFERS_ORDER_BY_FIELD_UNSPECIFIED"@,
            OffersOrderByField::CreatedAt => "OFFERS_ORDER_BY_FIELD_CREATED_AT"@,
            OffersOrderByField::UpdatedAt => "OFFERS_ORDER_BY_FIELD_UPDATED_AT"@,
            OffersOrderByField::Name => "OFFERS_ORDER_BY_FIELD_NAME"@,
            OffersOrderByField::Random => "OFFERS_ORDER_BY_FIELD_RANDOM"@,
        }
    }

    /// The variant whose protobuf name is `s`, if any.
    pub open spec fn spec_from_str_name(s: Seq<char>) -> Option<OffersOrderByField> {
        if s == "OFFERS_ORDER_BY_FIELD_UNSPECIFIED"@ {
            Some(OffersOrderByField::Unspecified)
        } else if s == "OFFERS_ORDER_BY_FIELD_CREATED_AT"@ {
            Some(OffersOrderByField::CreatedAt)
        } else if s == "OFFERS_ORDER_BY_FIELD_UPDATED_AT"@ {
            Some(OffersOrderByField::UpdatedAt)
        } else if s == "OFFERS_ORDER_BY_FIELD_NAME"@ {
            Some(OffersOrderByField::Name)
        } else if s == "OFFERS_ORDER_BY_FIELD_RANDOM"@ {
            Some(OffersOrderByField::Random)
        } else {
            None
        }
    }

    /// The protobuf number of each variant.
    pub open spec fn spec_to_i32(self) -> i32 {
        match self {
            OffersOrderByField::Unspecified => 0i32,
            OffersOrderByField::CreatedAt => 1i32,
            OffersOrderByField::UpdatedAt => 2i32,
            OffersOrderByField::Name => 3i32,
            OffersOrderByField::Random => 4i32,
        }
    }

    /// The variant whose protobuf number is `n`, if any.
    pub open spec fn spec_from_i32(n: i32) -> Option<OffersOrderByField> {
        if n == 0 {
            Some(OffersOrderByField::Unspecified)
        } else if n == 1 {
            Some(OffersOrderByField::CreatedAt)
        } else if n == 2 {
            Some(OffersOrderByField::UpdatedAt)
        } else if n == 3 {
            Some(OffersOrderByField::Name)
        } else if n == 4 {
            Some(OffersOrderByField::Random)
        } else {
            None
        }
    }

    /// String value of the enum field names used in the ProtoBuf definition.
    pub fn as_str_name(&self) -> (r: &'static str)
        ensures
            r@ == self.spec_as_str_name(),
    {
        match self {
            OffersOrderByField::Unspecified => "OFFERS_ORDER_BY_FIELD_UNSPECIFIED",
            OffersOrderByField::CreatedAt => "OFFERS_ORDER_BY_FIELD_CREATED_AT",
            OffersOrderByField::UpdatedAt => "OFFERS_ORDER_BY_FIELD_UPDATED_AT",
            OffersOrderByField::Name => "OFFERS_ORDER_BY_FIELD_NAME",
            OffersOrderByField::Random => "OFFERS_ORDER_BY_FIELD_RANDOM",
        }
    }

    /// Creates an enum from field names used in the ProtoBuf definition.
    pub fn from_str_name(value: &str) -> (r: Option<OffersOrderByField>)
        ensures
            r == Self::spec_from_str_name(value@),
    {
        if str_equal(value, "OFFERS_ORDER_BY_FIELD_UNSPECIFIED") {
            Some(OffersOrderByField::Unspecified)
        } else if str_equal(value, "OFFERS_ORDER_BY_FIELD_CREATED_AT") {
            Some(OffersOrderByField::CreatedAt)
        } else if str_equal(value, "OFFERS_ORDER_BY_FIELD_UPDATED_AT") {
            Some(OffersOrderByField::UpdatedAt)
        } else if str_equal(value, "OFFERS_ORDER_BY_FIELD_NAME") {
            Some(OffersOrderByField::Name)
        } else if str_equal(value, "OFFERS_ORDER_BY_FIELD_RANDOM") {
            Some(OffersOrderByField::Random)
        } else {
            None
        }
    }

    /// The protobuf number of this variant.
    pub fn to_i32(&self) -> (r: i32)
        ensures
            r == self.spec_to_i32(),
    {
        match self {
            OffersOrderByField::Unspecified => 0,
            OffersOrderByField::CreatedAt => 1,
            OffersOrderByField::UpdatedAt => 2,
            OffersOrderByField::Name => 3,
            OffersOrderByField::Random => 4,
        }
    }

    /// The variant with protobuf number `value`, if it is one.
    pub fn from_i32(value: i32) -> (r: Option<OffersOrderByField>)
        ensures
            r == Self::spec_from_i32(value),
    {
        if value == 0 {
            Some(OffersOrderByField::Unspecified)
        } else if value == 1 {
            Some(OffersOrderByField::CreatedAt)
        } else if value == 2 {
            Some(OffersOrderByField::UpdatedAt)
        } else if value == 3 {
            Some(OffersOrderByField::Name)
        } else if value == 4 {
            Some(OffersOrderByField::Random)
        } else {
            None
        }
    }

    /// The variant that a protobuf getter yields for the raw number `value`:
    /// the variant with that number, or `Unspecified` for an unknown one.
    pub fn from_i32_or_default(value: i32) -> (r: OffersOrderByField)
        ensures
            r == (match Self::spec_from_i32(value) {
                Some(v) => v,
                None => OffersOrderByField::Unspecified,
            }),
    {
        match Self::from_i32(value) {
            Some(v) => v,
            None => OffersOrderByField::Unspecified,
        }
    }
}

/// Reading back the protobuf name of a variant of `OffersOrderByField` gives that variant,
/// and a name is read as a variant only when it is that variant's name.
pub proof fn lemma_offers_order_by_field_name_round_trip(v: OffersOrderByField, s: Seq<char>)
    ensures
        OffersOrderByField::spec_from_str_name(v.spec_as_str_name()) == Some(v),
        OffersOrderByField::spec_from_str_name(s) == Some(v) ==> v.spec_as_str_name() == s,
{
    reveal_strlit("OFFERS_ORDER_BY_FIELD_UNSPECIFIED");
    reveal_strlit("OFFERS_ORDER_BY_FIELD_CREATED_AT");
    reveal_strlit("OFFERS_ORDER_BY_FIELD_UPDATED_AT");
    reveal_strlit("OFFERS_ORDER_BY_FIELD_NAME");
    reveal_strlit("OFFERS_ORDER_BY_FIELD_RANDOM");
    assert("OFFERS_ORDER_BY_FIELD_UNSPECIFIED"@.len() == 33);
    assert("OFFERS_ORDER_BY_FIELD_CREATED_AT"@.len() == 32);
    assert("OFFERS_ORDER_BY_FIELD_UPDATED_AT"@.len() == 32);
    assert("OFFERS_ORDER_BY_FIELD_NAME"@.len() == 26);
    assert("OFFERS_ORDER_BY_FIELD_RANDOM"@.len() == 28);
    assert("OFFERS_ORDER_BY_FIELD_CREATED_AT"@[22] != "OFFERS_ORDER_BY_FIELD_UPDATED_AT"@[22]);
}

/// Reading back the protobuf number of a variant of `OffersOrderByField` gives that variant,
/// and a number is read as a variant only when it is that variant's number.
pub proof fn lemma_offers_order_by_field_number_round_trip(v: OffersOrderByField, n: i32)
    ensures
        OffersOrderByField::spec_from_i32(v.spec_to_i32()) == Some(v),
        OffersOrderByField::spec_from_i32(n) == Some(v) ==> v.spec_to_i32() == n,
{
}

/// Field on which offers are filtered.
#[derive(Clone, Copy, Debug, PartialEq, Eq, Structural)]
pub enum OffersFilterField {
    Unspecified,
    Name,
    Description,
    NameAndDescription,
}

impl OffersFilterField {
    /// The protobuf name of each variant.
    pub open spec fn spec_as_str_name(self) -> Seq<char> {
        match self {
            OffersFilterField::Unspecified => "OFFERS_FILTER_FIELD_UNSPECIFIED"@,
            OffersFilterField::Name => "OFFERS_FILTER_FIELD_NAME"@,
            OffersFilterField::Description => "OFFERS_FILTER_FIELD_DESCRIPTION"@,
            OffersFilterField::NameAndDescription => "OFFERS_FILTER_FIELD_NAME_AND_DESCRIPTION"@,
        }
    }

    /// The variant whose protobuf name is `s`, if any.
    pub open spec fn spec_from_str_name(s: Seq<char>) -> Option<OffersFilterField> {
        if s == "OFFERS_FILTER_FIELD_UNSPECIFIED"@ {
            Some(OffersFilterField::Unspecified)
        } else if s == "OFFERS_FILTER_FIELD_NAME"@ {
            Some(OffersFilterField::Name)
        } else if s == "OFFERS_FILTER_FIELD_DESCRIPTION"@ {
            Some(OffersFilterField::Description)
        } else if s == "OFFERS_FILTER_FIELD_NAME_AND_DESCRIPTION"@ {
            Some(OffersFilterField::NameAndDescription)
        } else {
            None
        }
    }

    /// The protobuf number of each variant.
    pub open spec fn spec_to_i32(self) -> i32 {
        match self {
            OffersFilterField::Unspecified => 0i32,
            OffersFilterField::Name => 1i32,
            OffersFilterField::Description => 2i32,
            OffersFilterField::NameAndDescription => 3i32,
        }
    }

    /// The variant whose protobuf number is `n`, if any.
    pub open spec fn spec_from_i32(n: i32) -> Option<OffersFilterField> {
        if n == 0 {
            Some(OffersFilterField::Unspecified)
        } else if n == 1 {
            Some(OffersFilterField::Name)
        } else if n == 2 {
            Some(OffersFilterField::Description)
        } else if n == 3 {
            Some(OffersFilterField::NameAndDescription)
        } else {
            None
        }
    }

    /// String value of the enum field names used in the ProtoBuf definition.
    pub fn as_str_name(&self) -> (r: &'static str)
        ensures
            r@ == self.spec_as_str_name(),
    {
        match self {
            OffersFilterField::Unspecified => "OFFERS_FILTER_FIELD_UNSPECIFIED",
            OffersFilterField::Name => "OFFERS_FILTER_FIELD_NAME",
            OffersFilterField::Description => "OFFERS_FILTER_FIELD_DESCRIPTION",
            OffersFilterField::NameAndDescription => "OFFERS_FILTER_FIELD_NAME_AND_DESCRIPTION",
        }
    }

    /// Creates an enum from field names used in the ProtoBuf definition.
    pub fn from_str_name(value: &str) -> (r: Option<OffersFilterField>)
        ensures
            r == Self::spec_from_str_name(value@),
    {
        if str_equal(value, "OFFERS_FILTER_FIELD_UNSPECIFIED") {
            Some(OffersFilterField::Unspecified)
        } else if str_equal(value, "OFFERS_FILTER_FIELD_NAME") {
            Some(OffersFilterField::Name)
        } else if str_equal(value, "OFFERS_FILTER_FIELD_DESCRIPTION") {
            Some(OffersFilterField::Description)
        } else if str_equal(value, "OFFERS_FILTER_FIELD_NAME_AND_DESCRIPTION") {
            Some(OffersFilterField::NameAndDescription)
        } else {
            None
        }
    }

    /// The protobuf number of this variant.
    pub fn to_i32(&self) -> (r: i32)
        ensures
            r == self.spec_to_i32(),
    {
        match self {
            OffersFilterField::Unspecified => 0,
            OffersFilterField::Name => 1,
            OffersFilterField::Description => 2,
            OffersFilterField::NameAndDescription => 3,
        }
    }

    /// The variant with protobuf number `value`, if it is one.
    pub fn from_i32(value: i32) -> (r: Option<OffersFilterField>)
        ensures
            r == Self::spec_from_i32(value),
    {
        if value == 0 {
            Some(OffersFilterField::Unspecified)
        } else if value == 1 {
            Some(OffersFilterField::Name)
        } else if value == 2 {
            Some(OffersFilterField::Description)
        } else if value == 3 {
            Some(OffersFilterField::NameAndDescription)
        } else {
            None
        }
    }

    /// The variant that a protobuf getter yields for the raw number `value`:
    /// the variant with that number, or `Unspecified` for an unknown one.
    pub fn from_i32_or_default(value: i32) -> (r: OffersFilterField)
        ensures
            r == (match Self::spec_from_i32(value) {
                Some(v) => v,
                None => OffersFilterField::Unspecified,
            }),
    {
        match Self::from_i32(value) {
            Some(v) => v,
            None => OffersFilterField::Unspecified,
        }
    }
}

/// Reading back the protobuf name of a variant of `OffersFilterField` gives that variant,
/// and a name is read as a variant only when it is that variant's name.
pub proof fn lemma_offers_filter_field_name_round_trip(v: OffersFilterField, s: Seq<char>)
    ensures
        OffersFilterField::spec_from_str_name(v.spec_as_str_name()) == Some(v),
        OffersFilterField::spec_from_str_name(s) == Some(v) ==> v.spec_as_str_name() == s,
{
    reveal_strlit("OFFERS_FILTER_FIELD_UNSPECIFIED");
    reveal_strlit("OFFERS_FILTER_FIELD_NAME");
    reveal_strlit("OFFERS_FILTER_FIELD_DESCRIPTION");
    reveal_strlit("OFFERS_FILTER_FIELD_NAME_AND_DESCRIPTION");
    assert("OFFERS_FILTER_FIELD_UNSPECIFIED"@.len() == 31);
    assert("OFFERS_FILTER_FIELD_NAME"@.len() == 24);
    assert("OFFERS_FILTER_FIELD_DESCRIPTION"@.len() == 31);
    assert("OFFERS_FILTER_FIELD_NAME_AND_DESCRIPTION"@.len() == 40);
    assert("OFFERS_FILTER_FIELD_UNSPECIFIED"@[20] != "OFFERS_FILTER_FIELD_DESCRIPTION"@[20]);
}

/// Reading back the protobuf number of a variant of `OffersFilterField` gives that variant,
/// and a number is read as a variant only when it is that variant's number.
pub proof fn lemma_offers_filter_field_number_round_trip(v: OffersFilterField, n: i32)
    ensures
        OffersFilterField::spec_from_i32(v.spec_to_i32()) == Some(v),
        OffersFilterField::spec_from_i32(n) == Some(v) ==> v.spec_to_i32() == n,
{
}

/// Field by which shops are ordered. Its variants and their numbers are
/// those of `MarketBoothsOrderByField`, the same field of the commerce
/// protocol under the name it gives shops.
#[derive(Clone, Copy, Debug, PartialEq, Eq, Structural)]
pub enum ShopsOrderByField {
    Unspecified,
    CreatedAt,
    UpdatedAt,
    Name,
    Random,
}

impl ShopsOrderByField {
    /// The protobuf number of each variant.
    pub open spec fn spec_to_i32(self) -> i32 {
        match self {
            ShopsOrderByField::Unspecified => 0i32,
            ShopsOrderByField::CreatedAt => 1i32,
            ShopsOrderByField::UpdatedAt => 2i32,
            ShopsOrderByField::Name => 3i32,
            ShopsOrderByField::Random => 4i32,
        }
    }

    /// The variant whose protobuf number is `n`, if any.
    pub open spec fn spec_from_i32(n: i32) -> Option<ShopsOrderByField> {
        if n == 0 {
            Some(ShopsOrderByField::Unspecified)
        } else if n == 1 {
            Some(ShopsOrderByField::CreatedAt)
        } else if n == 2 {
            Some(ShopsOrderByField::UpdatedAt)
        } else if n == 3 {
            Some(ShopsOrderByField::Name)
        } else if n == 4 {
            Some(ShopsOrderByField::Random)
        } else {
            None
        }
    }

    /// The protobuf number of this variant.
    pub fn to_i32(&self) -> (r: i32)
        ensures
            r == self.spec_to_i32(),
    {
        match self {
            ShopsOrderByField::Unspecified => 0,
            ShopsOrderByField::CreatedAt => 1,
            ShopsOrderByField::UpdatedAt => 2,
            ShopsOrderByField::Name => 3,
            ShopsOrderByField::Random => 4,
        }
    }

    /// The variant with protobuf number `value`, if it is one.
    pub fn from_i32(value: i32) -> (r: Option<ShopsOrderByField>)
        ensures
            r == Self::spec_from_i32(value),
    {
        if value == 0 {
            Some(ShopsOrderByField::Unspecified)
        } else if value == 1 {
            Some(ShopsOrderByField::CreatedAt)
        } else if value == 2 {
            Some(ShopsOrderByField::UpdatedAt)
        } else if value == 3 {
            Some(ShopsOrderByField::Name)
        } else if value == 4 {
            Some(ShopsOrderByField::Random)
        } else {
            None
        }
    }

    /// The variant that a protobuf getter yields for the raw number `value`:
    /// the variant with that number, or `Unspecified` for an unknown one.
    pub fn from_i32_or_default(value: i32) -> (r: ShopsOrderByField)
        ensures
            r == (match Self::spec_from_i32(value) {
                Some(v) => v,
                None => ShopsOrderByField::Unspecified,
            }),
    {
        match Self::from_i32(value) {
            Some(v) => v,
            None => ShopsOrderByField::Unspecified,
        }
    }
}

/// Reading back the protobuf number of a variant of `ShopsOrderByField` gives that variant,
/// and a number is read as a variant only when it is that variant's number.
pub proof fn lemma_shops_order_by_field_number_round_trip(v: ShopsOrderByField, n: i32)
    ensures
        ShopsOrderByField::spec_from_i32(v.spec_to_i32()) == Some(v),
        ShopsOrderByField::spec_from_i32(n) == Some(v) ==> v.spec_to_i32() == n,
{
}

/// Field on which shops are filtered. Its variants and their numbers are
/// those of `MarketBoothsFilterField`, the same field of the commerce
/// protocol under the name it gives shops.
#[derive(Clone, Copy, Debug, PartialEq, Eq, Structural)]
pub enum ShopsFilterField {
    Unspecified,
    Name,
    Description,
    NameAndDescription,
}

impl ShopsFilterField {
    /// The protobuf number of each variant.
    pub open spec fn spec_to_i32(self) -> i32 {
        match self {
            ShopsFilterField::Unspecified => 0i32,
            ShopsFilterField::Name => 1i32,
            ShopsFilterField::Description => 2i32,
            ShopsFilterField::NameAndDescription => 3i32,
        }
    }

    /// The variant whose protobuf number is `n`, if any.
    pub open spec fn spec_from_i32(n: i32) -> Option<ShopsFilterField> {
        if n == 0 {
            Some(ShopsFilterField::Unspecified)
        } else if n == 1 {
            Some(ShopsFilterField::Name)
        } else if n == 2 {
            Some(ShopsFilterField::Description)
        } else if n == 3 {
            Some(ShopsFilterField::NameAndDescription)
        } else {
            None
        }
    }

    /// The protobuf number of this variant.
    pub fn to_i32(&self) -> (r: i32)
        ensures
            r == self.spec_to_i32(),
    {
        match self {
            ShopsFilterField::Unspecified => 0,
            ShopsFilterField::Name => 1,
            ShopsFilterField::Description => 2,
            ShopsFilterField::NameAndDescription => 3,
        }
    }

    /// The variant with protobuf number `value`, if it is one.
    pub fn from_i32(value: i32) -> (r: Option<ShopsFilterField>)
        ensures
            r == Self::spec_from_i32(value),
    {
        if value == 0 {
            Some(ShopsFilterField::Unspecified)
        } else if value == 1 {
            Some(ShopsFilterField::Name)
        } else if value == 2 {
            Some(ShopsFilterField::Description)
        } else if value == 3 {
            Some(ShopsFilterField::NameAndDescription)
        } else {
            None
        }
    }

    /// The variant that a protobuf getter yields for the raw number `value`:
    /// the variant with that number, or `Unspecified` for an unknown one.
    pub fn from_i32_or_default(value: i32) -> (r: ShopsFilterField)
        ensures
            r == (match Self::spec_from_i32(value) {
                Some(v) => v,
                None => ShopsFilterField::Unspecified,
            }),
    {
        match Self::from_i32(value) {
            Some(v) => v,
            None => ShopsFilterField::Unspecified,
        }
    }
}

/// Reading back the protobuf number of a variant of `ShopsFilterField` gives that variant,
/// and a number is read as a variant only when it is that variant's number.
pub proof fn lemma_shops_filter_field_number_round_trip(v: ShopsFilterField, n: i32)
    ensures
        ShopsFilterField::spec_from_i32(v.spec_to_i32()) == Some(v),
        ShopsFilterField::spec_from_i32(n) == Some(v) ==> v.spec_to_i32() == n,
{
}

/// The protobuf numbers and names of the variants of `Direction`, as the protocol defines
/// them.
pub proof fn lemma_direction_protocol_values()
    ensures
        Direction::Unspecified.spec_to_i32() == 0,
        Direction::Asc.spec_to_i32() == 1,
        Direction::Desc.spec_to_i32() == 2,
        Direction::Unspecified.spec_as_str_name() == "DIRECTION_UNSPECIFIED"@,
        Direction::Asc.spec_as_str_name() == "DIRECTION_ASC"@,
        Direction::Desc.spec_as_str_name() == "DIRECTION_DESC"@,
{
}

/// The protobuf numbers and names of the variants of `MarketBoothsOrderByField`, as the protocol defines
/// them.
pub proof fn lemma_market_booths_order_by_field_protocol_values()
    ensures
        MarketBoothsOrderByField::Unspecified.spec_to_i32() == 0,
        MarketBoothsOrderByField::CreatedAt.spec_to_i32() == 1,
        MarketBoothsOrderByField::UpdatedAt.spec_to_i32() == 2,
        MarketBoothsOrderByField::Name.spec_to_i32() == 3,
        MarketBoothsOrderByField::Random.spec_to_i32() == 4,
        MarketBoothsOrderByField::Unspecified.spec_as_str_name() == "MARKET_BOOTHS_ORDER_BY_FIELD_UNSPECIFIED"@,
        MarketBoothsOrderByField::CreatedAt.spec_as_str_name() == "MARKET_BOOTHS_ORDER_BY_FIELD_CREATED_AT"@,
        MarketBoothsOrderByField::UpdatedAt.spec_as_str_name() == "MARKET_BOOTHS_ORDER_BY_FIELD_UPDATED_AT"@,
        MarketBoothsOrderByField::Name.spec_as_str_name() == "MARKET_BOOTHS_ORDER_BY_FIELD_NAME"@,
        MarketBoothsOrderByField::Random.spec_as_str_name() == "MARKET_BOOTHS_ORDER_BY_FIELD_RANDOM"@,
{
}

/// The protobuf numbers and names of the variants of `MarketBoothsFilterField`, as the protocol defines
/// them.
pub proof fn lemma_market_booths_filter_field_protocol_values()
    ensures
        MarketBoothsFilterField::Unspecified.spec_to_i32() == 0,
        MarketBoothsFilterField::Name.spec_to_i32() == 1,
        MarketBoothsFilterField::Description.spec_to_i32() == 2,
        MarketBoothsFilterField::NameAndDescription.spec_to_i32() == 3,
        MarketBoothsFilterField::Unspecified.spec_as_str_name() == "MARKET_BOOTHS_FILTER_FIELD_UNSPECIFIED"@,
        MarketBoothsFilterField::Name.spec_as_str_name() == "MARKET_BOOTHS_FILTER_FIELD_NAME"@,
        MarketBoothsFilterField::Description.spec_as_str_name() == "MARKET_BOOTHS_FILTER_FIELD_DESCRIPTION"@,
        MarketBoothsFilterField::NameAndDescription.spec_as_str_name() == "MARKET_BOOTHS_FILTER_FIELD_NAME_AND_DESCRIPTION"@,
{
}

/// The protobuf numbers and names of the variants of `OffersOrderByField`, as the protocol defines
/// them.
pub proof fn lemma_offers_order_by_field_protocol_values()
    ensures
        OffersOrderByField::Unspecified.spec_to_i32() == 0,
        OffersOrderByField::CreatedAt.spec_to_i32() == 1,
        OffersOrderByField::UpdatedAt.spec_to_i32() == 2,
        OffersOrderByField::Name.spec_to_i32() == 3,
        OffersOrderByField::Random.spec_to_i32() == 4,
        OffersOrderByField::Unspecified.spec_as_str_name() == "OFFERS_ORDER_BY_FIELD_UNSPECIFIED"@,
        OffersOrderByField::CreatedAt.spec_as_str_name() == "OFFERS_ORDER_BY_FIELD_CREATED_AT"@,
        OffersOrderByField::UpdatedAt.spec_as_str_name() == "OFFERS_ORDER_BY_FIELD_UPDATED_AT"@,
        OffersOrderByField::Name.spec_as_str_name() == "OFFERS_ORDER_BY_FIELD_NAME"@,
        OffersOrderByField::Random.spec_as_str_name() == "OFFERS_ORDER_BY_FIELD_RANDOM"@,
{
}

/// The protobuf numbers and names of the variants of `OffersFilterField`, as the protocol defines
/// them.
pub proof fn lemma_offers_filter_field_protocol_values()
    ensures
        OffersFilterField::Unspecified.spec_to_i32() == 0,
        OffersFilterField::Name.spec_to_i32() == 1,
        OffersFilterField::Description.spec_to_i32() == 2,
        OffersFilterField::NameAndDescription.spec_to_i32() == 3,
        OffersFilterField::Unspecified.spec_as_str_name() == "OFFERS_FILTER_FIELD_UNSPECIFIED"@,
        OffersFilterField::Name.spec_as_str_name() == "OFFERS_FILTER_FIELD_NAME"@,
        OffersFilterField::Description.spec_as_str_name() == "OFFERS_FILTER_FIELD_DESCRIPTION"@,
        OffersFilterField::NameAndDescription.spec_as_str_name() == "OFFERS_FILTER_FIELD_NAME_AND_DESCRIPTION"@,
{
}

} // verus!
