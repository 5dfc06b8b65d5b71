//! Relations that come aggregated with a row, as Postgres sends them in
//! binary form: a record of fields, or an array of such records.
//!
//! A record is the number of its fields, then each field: the oid of its
//! type, the length of its value (negative for `NULL`) and the value's bytes;
//! all integers are 32-bit, most significant byte first.
use vstd::prelude::*;

use deadpool_postgres::tokio_postgres::types::{FromSql, Type};
use fallible_iterator::FallibleIterator;

verus! {

/// 256 to the power `n`.
pub open spec fn pow256(n: nat) -> nat
    decreases n,
{
    if n == 0 {
        1
    } else {
        256 * pow256((n - 1) as nat)
    }
}

/// The unsigned number that the bytes `s` write, most significant first.
pub open spec fn be_nat(s: Seq<u8>) -> nat
    decreases s.len(),
{
    if s.len() == 0 {
        0
    } else {
        be_nat(s.drop_last()) * 256 + (s.last() as nat)
    }
}

/// The signed number that the bytes `s` write in two's complement, most
/// significant first.
pub open spec fn be_signed(s: Seq<u8>) -> int {
    let u = be_nat(s) as int;
    if s.len() > 0 && u >= pow256(s.len()) / 2 {
        u - pow256(s.len())
    } else {
        u
    }
}

/// The 32-bit integer at `pos` of `raw`, where four bytes are there.
pub open spec fn spec_read_i32(raw: Seq<u8>, pos: int) -> Option<int> {
    if 0 <= pos && pos + 4 <= raw.len() {
        Some(be_signed(raw.subrange(pos, pos + 4)))
    } else {
        None
    }
}

/// The field at `pos` of a record: the oid of its type, the bytes of its
/// value (`None` for `NULL`) and where the next field starts.
pub open spec fn spec_read_field(raw: Seq<u8>, pos: int) -> Option<(int, Option<Seq<u8>>, int)> {
    match spec_read_i32(raw, pos) {
        None => None,
        Some(oid) => match spec_read_i32(raw, pos + 4) {
            None => None,
            Some(len) => if len < 0 {
                Some((oid, None, pos + 8))
            } else if pos + 8 + len <= raw.len() {
                Some((oid, Some(raw.subrange(pos + 8, pos + 8 + len)), pos + 8 + len))
            } else {
                None
            },
        },
    }
}

/// The kind of value that a field of a relation holds.
#[derive(Clone, Copy, Debug, PartialEq, Eq, Structural)]
pub enum FieldKind {
    Uuid,
    Text,
    OptText,
    Int8,
    OptInt8,
}

/// A value of a field of a relation.
#[derive(Debug)]
pub enum Field {
    Uuid(u128),
    Text(String),
    OptText(Option<String>),
    Int8(i64),
    OptInt8(Option<i64>),
}

/// A value of a field, with its text as characters.
pub enum FieldView {
    Uuid(u128),
    Text(Seq<char>),
    OptText(Option<Seq<char>>),
    Int8(i64),
    OptInt8(Option<i64>),
}

impl View for Field {
    type V = FieldView;

    open spec fn view(&self) -> FieldView {
        match self {
            Field::Uuid(u) => FieldView::Uuid(*u),
            Field::Text(s) => FieldView::Text(s@),
            Field::OptText(Some(s)) => FieldView::OptText(Some(s@)),
            Field::OptText(None) => FieldView::OptText(None),
            Field::Int8(i) => FieldView::Int8(*i),
            Field::OptInt8(o) => FieldView::OptInt8(*o),
        }
    }
}

/// Whether the value `f` is of the kind `kind`.
pub open spec fn is_of_kind(f: FieldView, kind: FieldKind) -> bool {
    match kind {
        FieldKind::Uuid => f is Uuid,
        FieldKind::Text => f is Text,
        FieldKind::OptText => f is OptText,
        FieldKind::Int8 => f is Int8,
        FieldKind::OptInt8 => f is OptInt8,
    }
}

/// The text that Postgres' text format gives for `raw` (its bytes read as
/// UTF-8), `None` where there is none.
pub uninterp spec fn pg_text(raw: Seq<u8>) -> Option<Seq<char>>;

/// Whether a value of the type with oid `oid` is read as a UUID: the
/// built-in type `uuid`.
pub open spec fn pg_accepts_uuid(oid: u32) -> bool {
    oid == 2950
}

/// Whether a value of the type with oid `oid` is read as a text: the
/// built-in types `name`, `text`, `unknown`, `bpchar` and `varchar`.
pub open spec fn pg_accepts_text(oid: u32) -> bool {
    oid == 19 || oid == 25 || oid == 705 || oid == 1042 || oid == 1043
}

/// Whether a value of the type with oid `oid` is read as a 64-bit integer:
/// the built-in type `int8`.
pub open spec fn pg_accepts_int8(oid: u32) -> bool {
    oid == 20
}

/// The number of dimensions and the elements (`None` for `NULL`) of the
/// array `raw` in Postgres' binary form, `None` where it is not one.
pub uninterp spec fn pg_array(raw: Seq<u8>) -> Option<(nat, Seq<Option<Seq<u8>>>)>;

/// `postgres_protocol::types::text_from_sql`: the bytes read as UTF-8.
/// Claimed: the result is the one named `pg_text` of the bytes.
#[verifier::external_body]
fn text_from_bytes(raw: &[u8]) -> (r: Option<String>)
    ensures
        match r {
            Some(s) => pg_text(raw@) == Some(s@),
            None => pg_text(raw@) is None,
        },
{
    match postgres_protocol::types::text_from_sql(raw) {
        Ok(s) => Some(s.to_string()),
        Err(_) => None,
    }
}

/// `Type::from_oid` and `<uuid::Uuid as FromSql>::accepts`: whether the
/// type with oid `oid` is a built-in type that a UUID is read from. Claimed,
/// as the type table and the `accepts` of `postgres-types` show: only `uuid`,
/// oid 2950.
#[verifier::external_body]
fn accepts_uuid(oid: u32) -> (r: bool)
    ensures
        r == pg_accepts_uuid(oid),
{
    match Type::from_oid(oid) {
        Some(ty) => <uuid::Uuid as FromSql>::accepts(&ty),
        None => false,
    }
}

/// `Type::from_oid` and `<String as FromSql>::accepts`: whether the type
/// with oid `oid` is a built-in type that a text is read from. Claimed, as
/// the type table and the `accepts` of `postgres-types` show: `name`,
/// `text`, `unknown`, `bpchar` and `varchar` (the other text types it takes,
/// such as `citext`, are not built in and have no oid of their own there).
#[verifier::external_body]
fn accepts_text(oid: u32) -> (r: bool)
    ensures
        r == pg_accepts_text(oid),
{
    match Type::from_oid(oid) {
        Some(ty) => <String as FromSql>::accepts(&ty),
        None => false,
    }
}

/// `Type::from_oid` and `<i64 as FromSql>::accepts`: whether the type with
/// oid `oid` is a built-in type that a 64-bit integer is read from. Claimed,
/// as the type table and the `accepts` of `postgres-types` show: only
/// `int8`, oid 20.
#[verifier::external_body]
fn accepts_int8(oid: u32) -> (r: bool)
    ensures
        r == pg_accepts_int8(oid),
{
    match Type::from_oid(oid) {
        Some(ty) => <i64 as FromSql>::accepts(&ty),
        None => false,
    }
}

/// The bytes of an optional value.
pub open spec fn opt_bytes(v: Option<Vec<u8>>) -> Option<Seq<u8>> {
    match v {
        Some(b) => Some(b@),
        None => None,
    }
}

/// `postgres_protocol::types::array_from_sql`, with the dimensions and the
/// values of the array it reads. Claimed: the number of dimensions and the
/// elements are the ones named `pg_array` of the bytes, and where the array
/// or its dimensions or values cannot be read there is no result.
#[verifier::external_body]
fn array_parts(raw: &[u8]) -> (r: Option<(usize, Vec<Option<Vec<u8>>>)>)
    ensures
        match r {
            Some((d, es)) => pg_array(raw@) == Some(
                (d as nat, es@.map_values(|e: Option<Vec<u8>>| opt_bytes(e))),
            ),
            None => pg_array(raw@) is None,
        },
{
    let array = postgres_protocol::types::array_from_sql(raw).ok()?;
    let dimensions = array.dimensions().count().ok()?;
    let mut values = array.values();
    let mut elements = Vec::new();
    while let Some(value) = values.next().ok()? {
        elements.push(value.map(<[u8]>::to_vec));
    }
    Some((dimensions, elements))
}

/// Whether a field whose type has oid `oid` is read as a value of `kind`.
pub open spec fn kind_accepts(kind: FieldKind, oid: int) -> bool {
    0 <= oid && match kind {
        FieldKind::Uuid => pg_accepts_uuid(oid as u32),
        FieldKind::Text | FieldKind::OptText => pg_accepts_text(oid as u32),
        FieldKind::Int8 | FieldKind::OptInt8 => pg_accepts_int8(oid as u32),
    }
}

/// The value of kind `kind` that the bytes `value` (`None` for `NULL`) give:
/// a UUID is sixteen bytes and a 64-bit integer eight, both most significant
/// first; a text is read as Postgres' text; only the optional kinds take
/// `NULL`.
pub open spec fn spec_field_value(kind: FieldKind, value: Option<Seq<u8>>) -> Option<FieldView> {
    match value {
        None => match kind {
            FieldKind::OptText => Some(FieldView::OptText(None)),
            FieldKind::OptInt8 => Some(FieldView::OptInt8(None)),
            _ => None,
        },
        Some(b) => match kind {
            FieldKind::Uuid => if b.len() == 16 {
                Some(FieldView::Uuid(be_nat(b) as u128))
            } else {
                None
            },
            FieldKind::Text => match pg_text(b) {
                Some(s) => Some(FieldView::Text(s)),
                None => None,
            },
            FieldKind::OptText => match pg_text(b) {
                Some(s) => Some(FieldView::OptText(Some(s))),
                None => None,
            },
            FieldKind::Int8 => if b.len() == 8 {
                Some(FieldView::Int8(be_signed(b) as i64))
            } else {
                None
            },
            FieldKind::OptInt8 => if b.len() == 8 {
                Some(FieldView::OptInt8(Some(be_signed(b) as i64)))
            } else {
                None
            },
        },
    }
}

/// The values of kinds `kinds` of the fields from `pos` on, each field in
/// turn; fields after them are not read.
pub open spec fn spec_read_fields(raw: Seq<u8>, pos: int, kinds: Seq<FieldKind>) -> Option<
    Seq<FieldView>,
>
    decreases kinds.len(),
{
    if kinds.len() == 0 {
        Some(seq![])
    } else {
        match spec_read_field(raw, pos) {
            None => None,
            Some((oid, value, next)) => if !kind_accepts(kinds[0], oid) {
                None
            } else {
                match spec_field_value(kinds[0], value) {
                    None => None,
                    Some(f) => match spec_read_fields(raw, next, kinds.drop_first()) {
                        None => None,
                        Some(rest) => Some(seq![f] + rest),
                    },
                }
            },
        }
    }
}

/// The values of kinds `kinds` of the record `raw`: its number of fields is
/// read and not checked, then its fields are read in turn.
pub open spec fn spec_read_record(raw: Seq<u8>, kinds: Seq<FieldKind>) -> Option<Seq<FieldView>> {
    if raw.len() < 4 {
        None
    } else {
        spec_read_fields(raw, 4, kinds)
    }
}

/// The records among `elems` that `decode` reads, in order; `NULL` elements
/// and those it does not read are left out.
pub open spec fn kept_records(
    elems: Seq<Option<Seq<u8>>>,
    decode: spec_fn(Seq<u8>) -> Option<Seq<FieldView>>,
) -> Seq<Seq<FieldView>>
    decreases elems.len(),
{
    if elems.len() == 0 {
        seq![]
    } else {
        let head = match elems[0] {
            Some(b) => match decode(b) {
                Some(fs) => seq![fs],
                None => seq![],
            },
            None => seq![],
        };
        head + kept_records(elems.drop_first(), decode)
    }
}

/// The records that `decode` reads from the array `raw`; an array of more
/// than one dimension, or none, gives nothing.
pub open spec fn spec_read_record_array(
    raw: Seq<u8>,
    decode: spec_fn(Seq<u8>) -> Option<Seq<FieldView>>,
) -> Option<Seq<Seq<FieldView>>> {
    match pg_array(raw) {
        None => None,
        Some((d, elems)) => if d > 1 {
            None
        } else {
            Some(kept_records(elems, decode))
        },
    }
}

/// A relation that comes as a record.
pub trait AsRecord: Sized {
    /// The values of the record that this relation is read from.
    spec fn record_fields(&self) -> Seq<FieldView>;

    /// The values of the record `raw` where it gives a relation.
    spec fn spec_record(raw: Seq<u8>) -> Option<Seq<FieldView>>;

    /// The relation that the record `raw` gives.
    fn from_record(raw: &[u8]) -> (r: Option<Self>)
        ensures
            match r {
                Some(x) => Self::spec_record(raw@) == Some(x.record_fields()),
                None => Self::spec_record(raw@) is None,
            },
    ;
}

proof fn lemma_pow256_mono(a: nat, b: nat)
    requires
        a <= b,
    ensures
        pow256(a) <= pow256(b),
    decreases b,
{
    if a < b {
        lemma_pow256_mono(a, (b - 1) as nat);
    }
}

/// The powers of 256 that the integers read here need.
proof fn lemma_pow256_values()
    ensures
        pow256(4) == 0x1_0000_0000nat,
        pow256(8) == 0x1_0000_0000_0000_0000nat,
        pow256(16) == 0x1_0000_0000_0000_0000_0000_0000_0000_0000nat,
{
    assert(pow256(0) == 1);
    assert(pow256(1) == 0x100);
    assert(pow256(2) == 0x1_0000);
    assert(pow256(3) == 0x100_0000);
    assert(pow256(4) == 0x1_0000_0000);
    assert(pow256(5) == 0x100_0000_0000);
    assert(pow256(6) == 0x1_0000_0000_0000);
    assert(pow256(7) == 0x100_0000_0000_0000);
    assert(pow256(8) == 0x1_0000_0000_0000_0000);
    assert(pow256(9) == 0x100_0000_0000_0000_0000);
    assert(pow256(10) == 0x1_0000_0000_0000_0000_0000);
    assert(pow256(11) == 0x100_0000_0000_0000_0000_0000);
    assert(pow256(12) == 0x1_0000_0000_0000_0000_0000_0000);
    assert(pow256(13) == 0x100_0000_0000_0000_0000_0000_0000);
    assert(pow256(14) == 0x1_0000_0000_0000_0000_0000_0000_0000);
    assert(pow256(15) == 0x100_0000_0000_0000_0000_0000_0000_0000);
    assert(pow256(16) == 0x1_0000_0000_0000_0000_0000_0000_0000_0000);
}

/// The unsigned number that the `n` bytes of `raw` from `start` write, most
/// significant first.
fn read_be(raw: &[u8], start: usize, n: usize) -> (r: u128)
    requires
        start + n <= raw@.len(),
        n <= 16,
    ensures
        r as nat == be_nat(raw@.subrange(start as int, start + n)),
        (r as nat) < pow256(n as nat),
{
    proof {
        lemma_pow256_values();
    }
    let total = raw.len();
    let mut v: u128 = 0;
    let mut i: usize = 0;
    assert(raw@.subrange(start as int, start as int) =~= Seq::<u8>::empty());
    while i < n
        invariant
            i <= n,
            total == raw@.len(),
            start + n <= raw@.len(),
            n <= 16,
            pow256(16) == 0x1_0000_0000_0000_0000_0000_0000_0000_0000nat,
            v as nat == be_nat(raw@.subrange(start as int, start + i)),
            (v as nat) < pow256(i as nat),
        decreases n - i,
    {
        let b = raw[start + i];
        proof {
            let s = raw@.subrange(start as int, start + i + 1);
            assert(s.drop_last() =~= raw@.subrange(start as int, start + i));
            assert(s.last() == b);
            lemma_pow256_mono((i + 1) as nat, 16);
            let p = pow256(i as nat);
            assert(pow256((i + 1) as nat) == 256 * p);
            assert(v * 256 + b < 256 * p) by (nonlinear_arith)
                requires
                    v < p,
                    b < 256,
            ;
        }
        v = v * 256 + b as u128;
        i = i + 1;
    }
    v
}

/// The 32-bit integer at `pos` of `raw`, where four bytes are there.
fn read_i32(raw: &[u8], pos: usize) -> (r: Option<i32>)
    ensures
        match r {
            Some(v) => spec_read_i32(raw@, pos as int) == Some(v as int),
            None => spec_read_i32(raw@, pos as int) is None,
        },
{
    if pos > raw.len() || raw.len() - pos < 4 {
        return None;
    }
    let u = read_be(raw, pos, 4);
    proof {
        lemma_pow256_values();
    }
    if u < 2147483648 {
        Some(u as i32)
    } else {
        Some((u as i64 - 4294967296) as i32)
    }
}

/// The 64-bit integer that the eight bytes `b` write.
fn read_i64(b: &[u8]) -> (r: i64)
    requires
        b@.len() == 8,
    ensures
        r as int == be_signed(b@),
{
    let u = read_be(b, 0, 8);
    assert(b@.subrange(0, 8) =~= b@);
    proof {
        lemma_pow256_values();
    }
    if u < 0x8000_0000_0000_0000 {
        u as i64
    } else {
        (u as i128 - 0x1_0000_0000_0000_0000i128) as i64
    }
}

/// The bytes of an optional slice.
pub open spec fn opt_slice(v: Option<&[u8]>) -> Option<Seq<u8>> {
    match v {
        Some(b) => Some(b@),
        None => None,
    }
}

/// The field at `pos` of a record: the oid of its type, its value and where
/// the next field starts.
fn read_field<'a>(raw: &'a [u8], pos: usize) -> (r: Option<(i32, Option<&'a [u8]>, usize)>)
    ensures
        match r {
            Some((oid, value, next)) => spec_read_field(raw@, pos as int) == Some(
                (oid as int, opt_slice(value), next as int),
            ),
            None => spec_read_field(raw@, pos as int) is None,
        },
{
    let total = raw.len();
    let oid = match read_i32(raw, pos) {
        Some(oid) => oid,
        None => {
            return None;
        },
    };
    let len = match read_i32(raw, pos + 4) {
        Some(len) => len,
        None => {
            return None;
        },
    };
    let start = pos + 8;
    if len < 0 {
        Some((oid, None, start))
    } else if len as usize <= raw.len() - start {
        let end = start + len as usize;
        let value = &raw[start..end];
        Some((oid, Some(value), end))
    } else {
        None
    }
}

/// Whether a field whose type has oid `oid` is read as a value of `kind`.
fn kind_accepts_oid(kind: FieldKind, oid: i32) -> (r: bool)
    ensures
        r == kind_accepts(kind, oid as int),
{
    if oid < 0 {
        return false;
    }
    match kind {
        FieldKind::Uuid => accepts_uuid(oid as u32),
        FieldKind::Text | FieldKind::OptText => accepts_text(oid as u32),
        FieldKind::Int8 | FieldKind::OptInt8 => accepts_int8(oid as u32),
    }
}

/// The value of kind `kind` that the bytes `value` give.
fn field_value(kind: FieldKind, value: Option<&[u8]>) -> (r: Option<Field>)
    ensures
        match r {
            Some(f) => spec_field_value(kind, opt_slice(value)) == Some(f@),
            None => spec_field_value(kind, opt_slice(value)) is None,
        },
{
    match value {
        None => match kind {
            FieldKind::OptText => Some(Field::OptText(None)),
            FieldKind::OptInt8 => Some(Field::OptInt8(None)),
            _ => None,
        },
        Some(b) => match kind {
            FieldKind::Uuid => {
                if b.len() == 16 {
                    let u = read_be(b, 0, 16);
                    assert(b@.subrange(0, 16) =~= b@);
                    Some(Field::Uuid(u))
                } else {
                    None
                }
            },
            FieldKind::Text => match text_from_bytes(b) {
                Some(s) => Some(Field::Text(s)),
                None => None,
            },
            FieldKind::OptText => match text_from_bytes(b) {
                Some(s) => Some(Field::OptText(Some(s))),
                None => None,
            },
            FieldKind::Int8 => {
                if b.len() == 8 {
                    Some(Field::Int8(read_i64(b)))
                } else {
                    None
                }
            },
            FieldKind::OptInt8 => {
                if b.len() == 8 {
                    Some(Field::OptInt8(Some(read_i64(b))))
                } else {
                    None
                }
            },
        },
    }
}

/// The values read of a record are of the kinds asked for.
pub proof fn lemma_read_fields_kinds(raw: Seq<u8>, pos: int, kinds: Seq<FieldKind>)
    ensures
        spec_read_fields(raw, pos, kinds) matches Some(fs) ==> fs.len() == kinds.len() && forall|i: int|
            0 <= i < fs.len() ==> #[trigger] is_of_kind(fs[i], kinds[i]),
    decreases kinds.len(),
{
    if kinds.len() > 0 {
        if let Some((oid, value, next)) = spec_read_field(raw, pos) {
            lemma_read_fields_kinds(raw, next, kinds.drop_first());
            if let Some(fs) = spec_read_fields(raw, pos, kinds) {
                let rest = spec_read_fields(raw, next, kinds.drop_first())->0;
                assert forall|i: int| 0 <= i < fs.len() implies #[trigger] is_of_kind(
                    fs[i],
                    kinds[i],
                ) by {
                    if i > 0 {
                        assert(fs[i] == rest[i - 1]);
                        assert(kinds[i] == kinds.drop_first()[i - 1]);
                    }
                }
            }
        }
    }
}

/// The values of kinds `kinds` of the record `raw`.
pub fn read_record(raw: &[u8], kinds: &[FieldKind]) -> (r: Option<Vec<Field>>)
    ensures
        match r {
            Some(fs) => spec_read_record(raw@, kinds@) == Some(fs@.map_values(|f: Field| f@)),
            None => spec_read_record(raw@, kinds@) is None,
        },
{
    if raw.len() < 4 {
        return None;
    }
    let mut pos: usize = 4;
    let mut out: Vec<Field> = Vec::new();
    let mut i: usize = 0;
    assert(kinds@.skip(0) =~= kinds@);
    while i < kinds.len()
        invariant
            i <= kinds@.len(),
            raw@.len() >= 4,
            spec_read_fields(raw@, 4, kinds@) == match spec_read_fields(raw@, pos as int, kinds@.skip(i as int)) {
                Some(rest) => Some(out@.map_values(|f: Field| f@) + rest),
                None => None::<Seq<FieldView>>,
            },
        decreases kinds@.len() - i,
    {
        let ghost tail = kinds@.skip(i as int);
        assert(tail[0] == kinds@[i as int]);
        assert(tail.drop_first() =~= kinds@.skip(i + 1));
        let (oid, value, next) = match read_field(raw, pos) {
            Some(f) => f,
            None => {
                return None;
            },
        };
        if !kind_accepts_oid(kinds[i], oid) {
            return None;
        }
        let f = match field_value(kinds[i], value) {
            Some(f) => f,
            None => {
                return None;
            },
        };
        let ghost before = out@.map_values(|f: Field| f@);
        out.push(f);
        proof {
            assert(out@.map_values(|f: Field| f@) =~= before.push(f@));
            match spec_read_fields(raw@, next as int, kinds@.skip(i + 1)) {
                Some(rest) => {
                    assert(before + (seq![f@] + rest) =~= before.push(f@) + rest);
                },
                None => {},
            }
        }
        pos = next;
        i = i + 1;
    }
    assert(kinds@.skip(i as int) =~= Seq::<FieldKind>::empty());
    assert(out@.map_values(|f: Field| f@) + seq![] =~= out@.map_values(|f: Field| f@));
    Some(out)
}

/// The relations that the array `raw` of records gives: an array of more
/// than one dimension, or none, gives nothing; a `NULL` element, or one that
/// is not a record of the relation, is left out.
pub fn records_from_array<T: AsRecord>(raw: &[u8]) -> (r: Option<Vec<T>>)
    ensures
        match r {
            Some(v) => spec_read_record_array(raw@, |b: Seq<u8>| T::spec_record(b)) == Some(
                v@.map_values(|x: T| x.record_fields()),
            ),
            None => spec_read_record_array(raw@, |b: Seq<u8>| T::spec_record(b)) is None,
        },
{
    let (dimensions, elements) = match array_parts(raw) {
        Some(p) => p,
        None => {
            return None;
        },
    };
    if dimensions > 1 {
        return None;
    }
    let ghost decode = |b: Seq<u8>| T::spec_record(b);
    let ghost elems = elements@.map_values(|e: Option<Vec<u8>>| opt_bytes(e));
    let mut out: Vec<T> = Vec::new();
    let mut i: usize = 0;
    assert(elems.skip(0) =~= elems);
    assert(out@.map_values(|x: T| x.record_fields()) =~= Seq::<Seq<FieldView>>::empty());
    while i < elements.len()
        invariant
            i <= elements@.len(),
            elems == elements@.map_values(|e: Option<Vec<u8>>| opt_bytes(e)),
            decode == (|b: Seq<u8>| T::spec_record(b)),
            kept_records(elems, decode) == out@.map_values(|x: T| x.record_fields())
                + kept_records(elems.skip(i as int), decode),
        decreases elements@.len() - i,
    {
        let ghost before = out@.map_values(|x: T| x.record_fields());
        let ghost tail = elems.skip(i as int);
        assert(tail[0] == elems[i as int]);
        assert(tail.drop_first() =~= elems.skip(i + 1));
        let ghost rest = kept_records(elems.skip(i + 1), decode);
        match &elements[i] {
            Some(b) => {
                match T::from_record(b.as_slice()) {
                    Some(x) => {
                        out.push(x);
                        assert(out@.map_values(|x: T| x.record_fields()) =~= before.push(
                            x.record_fields(),
                        ));
                        assert(before + (seq![x.record_fields()] + rest) =~= before.push(
                            x.record_fields(),
                        ) + rest);
                    },
                    None => {
                        assert(seq![] + rest =~= rest);
                    },
                }
            },
            None => {
                assert(seq![] + rest =~= rest);
            },
        }
        i = i + 1;
    }
    assert(elems.skip(i as int) =~= Seq::<Option<Seq<u8>>>::empty());
    assert(out@.map_values(|x: T| x.record_fields()) + seq![] =~= out@.map_values(
        |x: T| x.record_fields(),
    ));
    Some(out)
}

/// Bytes are read most significant first: a byte put in front of `s` counts
/// `256` to the power of the length of `s` times its value, and the number
/// that `s` writes is below `256` to the power of its length.
pub proof fn lemma_be_nat_most_significant_first(b: u8, s: Seq<u8>)
    ensures
        be_nat(seq![b] + s) == b as nat * pow256(s.len()) + be_nat(s),
        be_nat(s) < pow256(s.len()),
    decreases s.len(),
{
    if s.len() == 0 {
        let t = seq![b] + s;
        assert(t.drop_last() =~= Seq::<u8>::empty());
        assert(be_nat(Seq::<u8>::empty()) == 0);
        assert(t.last() == b);
        assert(be_nat(t) == be_nat(t.drop_last()) * 256 + (t.last() as nat));
        assert(pow256(0) == 1);
    } else {
        lemma_be_nat_most_significant_first(b, s.drop_last());
        assert((seq![b] + s).drop_last() =~= seq![b] + s.drop_last());
        let n = s.drop_last().len();
        assert(pow256(s.len()) == 256 * pow256(n));
        assert((seq![b] + s).last() == s.last());
        assert(be_nat(seq![b] + s) == be_nat(seq![b] + s.drop_last()) * 256 + (s.last() as nat));
        assert(be_nat(s) == be_nat(s.drop_last()) * 256 + (s.last() as nat));
        assert((b as nat * pow256(n) + be_nat(s.drop_last())) * 256 == b as nat * (256 * pow256(n))
            + be_nat(s.drop_last()) * 256) by (nonlinear_arith);
        assert(be_nat(s.drop_last()) * 256 + (s.last() as nat) < pow256(s.len())) by (nonlinear_arith)
            requires
                be_nat(s.drop_last()) < pow256(n),
                pow256(s.len()) == 256 * pow256(n),
                s.last() < 256,
        ;
    }
}

/// A signed number written in two's complement is the unsigned number of the
/// same bytes, less `256` to the power of their length where its top bit is
/// set; it lies in the range of that many bytes.
pub proof fn lemma_be_signed_twos_complement(s: Seq<u8>)
    requires
        s.len() > 0,
    ensures
        be_signed(s) == if s[0] >= 128 { be_nat(s) - pow256(s.len()) } else { be_nat(s) as int },
        -(pow256(s.len()) / 2) <= be_signed(s) < pow256(s.len()) / 2,
{
    let t = s.drop_first();
    assert(seq![s[0]] + t =~= s);
    lemma_be_nat_most_significant_first(s[0], t);
    assert(pow256(s.len()) == 256 * pow256(t.len()));
    assert(pow256(s.len()) / 2 == 128 * pow256(t.len()));
    if s[0] >= 128 {
        assert(s[0] as nat * pow256(t.len()) >= 128 * pow256(t.len())) by (nonlinear_arith)
            requires
                s[0] >= 128,
        ;
    } else {
        assert(s[0] as nat * pow256(t.len()) + be_nat(t) < 128 * pow256(t.len())) by (nonlinear_arith)
            requires
                s[0] < 128,
                be_nat(t) < pow256(t.len()),
        ;
    }
    assert(s[0] as nat * pow256(t.len()) < 256 * pow256(t.len())) by (nonlinear_arith)
        requires
            s[0] < 256,
            be_nat(t) < pow256(t.len()),
    ;
}

/// A field's bytes give a value of its kind: a UUID from exactly sixteen
/// bytes, a 64-bit integer from exactly eight, both most significant first,
/// a text as Postgres reads it; `NULL` gives the empty value of an optional
/// kind and nothing for the others.
pub proof fn lemma_field_values(b: Seq<u8>)
    ensures
        spec_field_value(FieldKind::Uuid, Some(b)) == (if b.len() == 16 {
            Some(FieldView::Uuid(be_nat(b) as u128))
        } else {
            None
        }),
        spec_field_value(FieldKind::Int8, Some(b)) == (if b.len() == 8 {
            Some(FieldView::Int8(be_signed(b) as i64))
        } else {
            None
        }),
        spec_field_value(FieldKind::OptInt8, Some(b)) == (if b.len() == 8 {
            Some(FieldView::OptInt8(Some(be_signed(b) as i64)))
        } else {
            None
        }),
        pg_text(b) matches Some(t) ==> spec_field_value(FieldKind::Text, Some(b)) == Some(
            FieldView::Text(t),
        ) && spec_field_value(FieldKind::OptText, Some(b)) == Some(FieldView::OptText(Some(t))),
        spec_field_value(FieldKind::OptText, None) == Some(FieldView::OptText(None)),
        spec_field_value(FieldKind::OptInt8, None) == Some(FieldView::OptInt8(None)),
        spec_field_value(FieldKind::Uuid, None) is None,
        spec_field_value(FieldKind::Text, None) is None,
        spec_field_value(FieldKind::Int8, None) is None,
{
}

} // verus!
