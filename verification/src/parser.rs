//! Reading typed attributes out of the dBase records that accompany shapefile shapes.
use crate::road::{OneWay, RoadClass};
use crate::text::{parse_i64, spec_parse_i64, spec_trim, str_eq, trim};
use crate::water::WaterClass;
use std::marker::PhantomData;
use vstd::prelude::*;

verus! {

/// What the attribute parsers read of a dBase `Numeric` value.
#[derive(Debug, Clone, PartialEq)]
pub struct NumericValue {
    /// The number converted to `i32` (saturating, fraction dropped).
    pub as_i32: i32,
    /// The number converted to `u32` (saturating, fraction dropped).
    pub as_u32: u32,
    /// Whether the number is at least zero.
    pub non_negative: bool,
    /// The number rendered as text.
    pub text: String,
}

/// The kind of a dBase field value, with the contents the parsers read.
#[derive(Debug, Clone, PartialEq)]
pub enum FieldKind {
    /// A text field; `None` for a blank one.
    Character(Option<String>),
    /// A number field; `None` for a blank one.
    Numeric(Option<NumericValue>),
    /// Any other kind of field.
    Other,
}

/// A dBase field value, with the debug rendering that error messages quote.
#[derive(Debug, Clone, PartialEq)]
pub struct Field {
    pub kind: FieldKind,
    pub debug_text: String,
}

/// Why an attribute or a shape of a record could not be read.
#[derive(Debug, Clone, PartialEq)]
pub enum RecordParseError {
    /// The record has no field of that name.
    MissingField { field: &'static str },
    /// The field holds a value the parser refuses.
    InvalidField { field: &'static str, value: String },
    /// The field is of another kind than the parser reads.
    UnexpectedType { field: &'static str, value: String },
    /// The shape is neither a polygon nor a multipolygon.
    UnexpectedShapeType { shape_type: ShapeKind },
    /// The shape's geometry is degenerate.
    InvalidShape { message: String },
}

/// The type of a shapefile shape, as its header names it.
#[derive(Debug, Clone, Copy, PartialEq, Eq, Hash, Structural)]
pub enum ShapeKind {
    NullShape,
    Point,
    Polyline,
    Polygon,
    Multipoint,
    PointZ,
    PolylineZ,
    PolygonZ,
    MultipointZ,
    PointM,
    PolylineM,
    PolygonM,
    MultipointM,
    Multipatch,
}

/// A [`RecordParseError`] with its texts as character sequences.
pub enum ParseErrorView {
    MissingField { field: Seq<char> },
    InvalidField { field: Seq<char>, value: Seq<char> },
    UnexpectedType { field: Seq<char>, value: Seq<char> },
    UnexpectedShapeType { shape_type: ShapeKind },
    InvalidShape { message: Seq<char> },
}

impl DeepView for RecordParseError {
    type V = ParseErrorView;

    open spec fn deep_view(&self) -> ParseErrorView {
        match self {
            RecordParseError::MissingField { field } => ParseErrorView::MissingField {
                field: field@,
            },
            RecordParseError::InvalidField { field, value } => ParseErrorView::InvalidField {
                field: field@,
                value: value@,
            },
            RecordParseError::UnexpectedType { field, value } => ParseErrorView::UnexpectedType {
                field: field@,
                value: value@,
            },
            RecordParseError::UnexpectedShapeType { shape_type } => {
                ParseErrorView::UnexpectedShapeType { shape_type: *shape_type }
            },
            RecordParseError::InvalidShape { message } => ParseErrorView::InvalidShape {
                message: message@,
            },
        }
    }
}

/// A parse result with its value and error taken by their views.
pub open spec fn result_view<T: DeepView>(r: Result<T, RecordParseError>) -> Result<
    T::V,
    ParseErrorView,
> {
    match r {
        Ok(v) => Ok(v.deep_view()),
        Err(e) => Err(e.deep_view()),
    }
}

/// The error for a field of a kind the parser does not read.
pub open spec fn unexpected_type<T>(field: Seq<char>, value: Field) -> Result<T, ParseErrorView> {
    Err(ParseErrorView::UnexpectedType { field, value: value.debug_text@ })
}

fn unexpected_type_error(field: &'static str, value: &Field) -> (e: RecordParseError)
    ensures
        Err::<(), ParseErrorView>(e.deep_view()) == unexpected_type::<()>(field@, *value),
{
    RecordParseError::UnexpectedType { field, value: value.debug_text.clone() }
}

/// Reads one typed attribute from a field value.
pub trait Parser {
    type Output: DeepView;

    /// What reading `value` for the field named `field` gives.
    spec fn spec_parse(field: Seq<char>, value: Field) -> Result<
        <Self::Output as DeepView>::V,
        ParseErrorView,
    >;

    fn parse(field: &'static str, value: &Field) -> (r: Result<Self::Output, RecordParseError>)
        ensures
            result_view(r) == Self::spec_parse(field@, *value),
    ;
}

/// Reads a text field, without surrounding whitespace.
pub struct StringParser;

impl Parser for StringParser {
    type Output = String;

    open spec fn spec_parse(field: Seq<char>, value: Field) -> Result<Seq<char>, ParseErrorView> {
        match value.kind {
            FieldKind::Character(Some(s)) => Ok(spec_trim(s@)),
            _ => unexpected_type(field, value),
        }
    }

    fn parse(field: &'static str, value: &Field) -> (r: Result<String, RecordParseError>) {
        match &value.kind {
            FieldKind::Character(Some(s)) => Ok(trim(s.as_str())),
            _ => Err(unexpected_type_error(field, value)),
        }
    }
}

/// Reads a number field as an `i32`.
pub struct I32Parser;

impl Parser for I32Parser {
    type Output = i32;

    open spec fn spec_parse(field: Seq<char>, value: Field) -> Result<i32, ParseErrorView> {
        match value.kind {
            FieldKind::Numeric(Some(n)) => Ok(n.as_i32),
            _ => unexpected_type(field, value),
        }
    }

    fn parse(field: &'static str, value: &Field) -> (r: Result<i32, RecordParseError>) {
        match &value.kind {
            FieldKind::Numeric(Some(n)) => Ok(n.as_i32),
            _ => Err(unexpected_type_error(field, value)),
        }
    }
}

/// Reads a number field as a `u32`, refusing negative numbers.
pub struct U32Parser;

impl Parser for U32Parser {
    type Output = u32;

    open spec fn spec_parse(field: Seq<char>, value: Field) -> Result<u32, ParseErrorView> {
        match value.kind {
            FieldKind::Numeric(Some(n)) => if n.non_negative {
                Ok(n.as_u32)
            } else {
                Err(ParseErrorView::InvalidField { field, value: n.text@ })
            },
            _ => unexpected_type(field, value),
        }
    }

    fn parse(field: &'static str, value: &Field) -> (r: Result<u32, RecordParseError>) {
        match &value.kind {
            FieldKind::Numeric(Some(n)) => if n.non_negative {
                Ok(n.as_u32)
            } else {
                Err(RecordParseError::InvalidField { field, value: n.text.clone() })
            },
            _ => Err(unexpected_type_error(field, value)),
        }
    }
}

/// Reads a `T`/`F` flag; a blank field is `false`.
pub struct TfBoolParser;

impl Parser for TfBoolParser {
    type Output = bool;

    open spec fn spec_parse(field: Seq<char>, value: Field) -> Result<bool, ParseErrorView> {
        match value.kind {
            FieldKind::Character(Some(s)) => {
                let t = spec_trim(s@);
                if t == "T"@ {
                    Ok(true)
                } else if t == "F"@ || t.len() == 0 {
                    Ok(false)
                } else {
                    Err(ParseErrorView::InvalidField { field, value: t })
                }
            },
            FieldKind::Character(None) => Ok(false),
            _ => unexpected_type(field, value),
        }
    }

    fn parse(field: &'static str, value: &Field) -> (r: Result<bool, RecordParseError>) {
        match &value.kind {
            FieldKind::Character(Some(s)) => {
                let t = trim(s.as_str());
                if str_eq(t.as_str(), "T") {
                    Ok(true)
                } else if str_eq(t.as_str(), "F") || t.as_str().unicode_len() == 0 {
                    Ok(false)
                } else {
                    Err(RecordParseError::InvalidField { field, value: t })
                }
            },
            FieldKind::Character(None) => Ok(false),
            _ => Err(unexpected_type_error(field, value)),
        }
    }
}

/// Reads the direction of a one-way road: `F` forwards only, `T` backwards only,
/// `B` or blank both ways.
pub struct OneWayParser;

impl Parser for OneWayParser {
    type Output = OneWay;

    open spec fn spec_parse(field: Seq<char>, value: Field) -> Result<OneWay, ParseErrorView> {
        match value.kind {
            FieldKind::Character(Some(s)) => {
                let t = spec_trim(s@);
                if t == "F"@ {
                    Ok(OneWay::ForwardsOnly)
                } else if t == "T"@ {
                    Ok(OneWay::BackwardsOnly)
                } else if t == "B"@ || t.len() == 0 {
                    Ok(OneWay::Bidirectional)
                } else {
                    Err(ParseErrorView::InvalidField { field, value: t })
                }
            },
            FieldKind::Character(None) => Ok(OneWay::Bidirectional),
            _ => unexpected_type(field, value),
        }
    }

    fn parse(field: &'static str, value: &Field) -> (r: Result<OneWay, RecordParseError>) {
        match &value.kind {
            FieldKind::Character(Some(s)) => {
                let t = trim(s.as_str());
                if str_eq(t.as_str(), "F") {
                    Ok(OneWay::ForwardsOnly)
                } else if str_eq(t.as_str(), "T") {
                    Ok(OneWay::BackwardsOnly)
                } else if str_eq(t.as_str(), "B") || t.as_str().unicode_len() == 0 {
                    Ok(OneWay::Bidirectional)
                } else {
                    Err(RecordParseError::InvalidField { field, value: t })
                }
            },
            FieldKind::Character(None) => Ok(OneWay::Bidirectional),
            _ => Err(unexpected_type_error(field, value)),
        }
    }
}

/// Values that can be read from their text.
pub trait FromText: Sized + DeepView {
    /// The value that text `s` denotes, if any.
    spec fn spec_from_text(s: Seq<char>) -> Option<Self>;

    fn from_text(s: &str) -> (r: Option<Self>)
        ensures
            r == Self::spec_from_text(s@),
    ;
}

impl FromText for i64 {
    open spec fn spec_from_text(s: Seq<char>) -> Option<i64> {
        match spec_parse_i64(s) {
            Ok(v) => Some(v),
            Err(_) => None,
        }
    }

    fn from_text(s: &str) -> (r: Option<i64>) {
        match parse_i64(s) {
            Ok(v) => Some(v),
            Err(_) => None,
        }
    }
}

impl FromText for RoadClass {
    open spec fn spec_from_text(s: Seq<char>) -> Option<RoadClass> {
        RoadClass::spec_from_name(s)
    }

    fn from_text(s: &str) -> (r: Option<RoadClass>) {
        RoadClass::from_name(s)
    }
}

impl FromText for WaterClass {
    open spec fn spec_from_text(s: Seq<char>) -> Option<WaterClass> {
        WaterClass::spec_from_name(s)
    }

    fn from_text(s: &str) -> (r: Option<WaterClass>) {
        WaterClass::from_name(s)
    }
}

/// Reads a text field and then a `T` from the trimmed text.
pub struct FromStrParser<T>(PhantomData<T>);

impl<T: FromText> Parser for FromStrParser<T> {
    type Output = T;

    open spec fn spec_parse(field: Seq<char>, value: Field) -> Result<T::V, ParseErrorView> {
        match StringParser::spec_parse(field, value) {
            Err(e) => Err(e),
            Ok(s) => match T::spec_from_text(s) {
                Some(v) => Ok(v.deep_view()),
                None => Err(ParseErrorView::InvalidField { field, value: s }),
            },
        }
    }

    fn parse(field: &'static str, value: &Field) -> (r: Result<T, RecordParseError>) {
        let s = match StringParser::parse(field, value) {
            Ok(s) => s,
            Err(e) => return Err(e),
        };
        match T::from_text(s.as_str()) {
            Some(v) => Ok(v),
            None => Err(RecordParseError::InvalidField { field, value: s }),
        }
    }
}

/// Whether a field value is a blank text or number field.
pub open spec fn is_blank(value: Field) -> bool {
    value.kind matches FieldKind::Character(None) || value.kind matches FieldKind::Numeric(None)
}

/// Reads a blank text or number field as `None`, any other with `P`.
pub struct OptionParser<P>(PhantomData<P>);

impl<P: Parser> Parser for OptionParser<P> {
    type Output = Option<P::Output>;

    open spec fn spec_parse(field: Seq<char>, value: Field) -> Result<
        Option<<P::Output as DeepView>::V>,
        ParseErrorView,
    > {
        if is_blank(value) {
            Ok(None)
        } else {
            match P::spec_parse(field, value) {
                Ok(v) => Ok(Some(v)),
                Err(e) => Err(e),
            }
        }
    }

    fn parse(field: &'static str, value: &Field) -> (r: Result<Option<P::Output>, RecordParseError>) {
        match &value.kind {
            FieldKind::Character(None) | FieldKind::Numeric(None) => Ok(None),
            _ => match P::parse(field, value) {
                Ok(v) => Ok(Some(v)),
                Err(e) => Err(e),
            },
        }
    }
}

/// Reads a flag with `P`, a blank field giving `DEFAULT`.
pub struct DefaultParser<P, const DEFAULT: bool>(PhantomData<P>);

impl<P: Parser<Output = bool>, const DEFAULT: bool> Parser for DefaultParser<P, DEFAULT> {
    type Output = bool;

    open spec fn spec_parse(field: Seq<char>, value: Field) -> Result<bool, ParseErrorView> {
        match OptionParser::<P>::spec_parse(field, value) {
            Ok(Some(b)) => Ok(b),
            Ok(None) => Ok(DEFAULT),
            Err(e) => Err(e),
        }
    }

    fn parse(field: &'static str, value: &Field) -> (r: Result<bool, RecordParseError>) {
        match OptionParser::<P>::parse(field, value) {
            Ok(Some(b)) => Ok(b),
            Ok(None) => Ok(DEFAULT),
            Err(e) => Err(e),
        }
    }
}

/// The attribute values of one shape, by field name.
#[derive(Debug, Clone, PartialEq)]
pub struct Record {
    pub fields: Vec<(String, Field)>,
}

/// The value of the first field named `name`, if any.
pub open spec fn spec_lookup(fields: Seq<(String, Field)>, name: Seq<char>) -> Option<Field>
    decreases fields.len(),
{
    if fields.len() == 0 {
        None
    } else if fields[0].0@ == name {
        Some(fields[0].1)
    } else {
        spec_lookup(fields.drop_first(), name)
    }
}

/// What reading the required field `field` with `P` gives.
pub open spec fn spec_required<P: Parser>(fields: Seq<(String, Field)>, field: Seq<char>) -> Result<
    <P::Output as DeepView>::V,
    ParseErrorView,
> {
    match spec_lookup(fields, field) {
        Some(v) => P::spec_parse(field, v),
        None => Err(ParseErrorView::MissingField { field }),
    }
}

/// What reading the optional field `field` with `P` gives: `None` when the record
/// has no such field or it is blank.
pub open spec fn spec_optional<P: Parser>(fields: Seq<(String, Field)>, field: Seq<char>) -> Result<
    Option<<P::Output as DeepView>::V>,
    ParseErrorView,
> {
    match spec_lookup(fields, field) {
        Some(v) => OptionParser::<P>::spec_parse(field, v),
        None => Ok(None),
    }
}

proof fn lemma_lookup_index(fields: Seq<(String, Field)>, name: Seq<char>, i: int)
    requires
        0 <= i <= fields.len(),
        forall|k: int| 0 <= k < i ==> (#[trigger] fields[k]).0@ != name,
    ensures
        spec_lookup(fields, name) == spec_lookup(fields.skip(i), name),
    decreases i,
{
    if i > 0 {
        lemma_lookup_index(fields.drop_first(), name, i - 1);
        assert(fields.drop_first().skip(i - 1) =~= fields.skip(i));
    } else {
        assert(fields.skip(0) =~= fields);
    }
}

impl Record {
    /// A record without fields.
    pub fn new() -> (r: Record)
        ensures
            r.fields@.len() == 0,
    {
        Record { fields: Vec::new() }
    }

    /// Sets field `name` to `value`, returning the value it had.
    pub fn insert(&mut self, name: String, value: Field) -> (previous: Option<Field>)
        ensures
            previous == spec_lookup(old(self).fields@, name@),
            spec_lookup(final(self).fields@, name@) == Some(value),
            forall|other: Seq<char>|
                other != name@ ==> #[trigger] spec_lookup(final(self).fields@, other)
                    == spec_lookup(old(self).fields@, other),
    {
        let n = self.fields.len();
        let mut i: usize = 0;
        while i < n
            invariant
                n == self.fields@.len(),
                self.fields@ == old(self).fields@,
                i <= n,
                forall|k: int| 0 <= k < i ==> (#[trigger] self.fields@[k]).0@ != name@,
            decreases n - i,
        {
            if str_eq(self.fields[i].0.as_str(), name.as_str()) {
                let ghost before = self.fields@;
                let (_, previous) = self.fields.remove(i);
                self.fields.insert(i, (name, value));
                proof {
                    let after = self.fields@;
                    lemma_lookup_index(before, name@, i as int);
                    lemma_lookup_index(after, name@, i as int);
                    assert(after.skip(i as int).drop_first() =~= before.skip(i as int).drop_first());
                    assert forall|other: Seq<char>| other != name@ implies #[trigger] spec_lookup(
                        after,
                        other,
                    ) == spec_lookup(before, other) by {
                        lemma_lookup_prefix_swap(before, after, i as int, other);
                    }
                }
                return Some(previous);
            }
            i += 1;
        }
        let ghost before = self.fields@;
        self.fields.push((name, value));
        proof {
            let after = self.fields@;
            lemma_lookup_index(before, name@, n as int);
            lemma_lookup_index(after, name@, n as int);
            assert(after.skip(n as int).drop_first() =~= Seq::<(String, Field)>::empty());
            assert forall|other: Seq<char>| other != name@ implies #[trigger] spec_lookup(
                after,
                other,
            ) == spec_lookup(before, other) by {
                lemma_lookup_append(before, (name, value), other);
            }
        }
        None
    }

    /// The value of field `name`, if the record has one.
    pub fn get(&self, name: &str) -> (r: Option<&Field>)
        ensures
            match r {
                Some(v) => spec_lookup(self.fields@, name@) == Some(*v),
                None => spec_lookup(self.fields@, name@) is None,
            },
    {
        let n = self.fields.len();
        let mut i: usize = 0;
        while i < n
            invariant
                n == self.fields@.len(),
                i <= n,
                forall|k: int| 0 <= k < i ==> (#[trigger] self.fields@[k]).0@ != name@,
            decreases n - i,
        {
            if str_eq(self.fields[i].0.as_str(), name) {
                proof {
                    lemma_lookup_index(self.fields@, name@, i as int);
                }
                return Some(&self.fields[i].1);
            }
            i += 1;
        }
        proof {
            lemma_lookup_index(self.fields@, name@, n as int);
        }
        None
    }

    /// Reads field `field` with `P`; a missing field is an error.
    pub fn required<P: Parser>(&self, field: &'static str) -> (r: Result<P::Output, RecordParseError>)
        ensures
            result_view(r) == spec_required::<P>(self.fields@, field@),
    {
        match self.get(field) {
            Some(v) => P::parse(field, v),
            None => Err(RecordParseError::MissingField { field }),
        }
    }

    /// Reads field `field` with `P`; a missing or blank field gives `None`.
    pub fn optional<P: Parser>(&self, field: &'static str) -> (r: Result<
        Option<P::Output>,
        RecordParseError,
    >)
        ensures
            result_view(r) == spec_optional::<P>(self.fields@, field@),
    {
        match self.get(field) {
            Some(v) => OptionParser::<P>::parse(field, v),
            None => Ok(None),
        }
    }
}

proof fn lemma_lookup_prefix_swap(
    before: Seq<(String, Field)>,
    after: Seq<(String, Field)>,
    i: int,
    other: Seq<char>,
)
    requires
        0 <= i < before.len(),
        after.len() == before.len(),
        forall|k: int| 0 <= k < before.len() && k != i ==> #[trigger] after[k] == before[k],
        after[i].0@ == before[i].0@,
        before[i].0@ != other,
    ensures
        spec_lookup(after, other) == spec_lookup(before, other),
    decreases before.len(),
{
    if i > 0 {
        lemma_lookup_prefix_swap(before.drop_first(), after.drop_first(), i - 1, other);
    } else {
        assert(after.drop_first() =~= before.drop_first());
    }
}

proof fn lemma_lookup_append(before: Seq<(String, Field)>, entry: (String, Field), other: Seq<char>)
    requires
        entry.0@ != other,
    ensures
        spec_lookup(before.push(entry), other) == spec_lookup(before, other),
    decreases before.len(),
{
    if before.len() > 0 {
        lemma_lookup_append(before.drop_first(), entry, other);
        assert(before.push(entry).drop_first() =~= before.drop_first().push(entry));
        assert(before.push(entry)[0] == before[0]);
    } else {
        assert(before.push(entry).drop_first() =~= Seq::<(String, Field)>::empty());
        assert(before.push(entry)[0] == entry);
        assert(spec_lookup(Seq::<(String, Field)>::empty(), other) is None);
    }
}

} // verus!
