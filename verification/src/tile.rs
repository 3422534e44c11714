//! Tile addressing: map tile ids, quadtree keys and the layers tiles are drawn from.
use crate::text::{parse_u32, spec_parse_u32, str_eq, IntParseError};
use vstd::prelude::*;
use vstd::string::*;

verus! {

/// A tile of the web-mercator tile pyramid: zoom `z`, column `x`, row `y`.
#[derive(Debug, Clone, Copy, PartialEq, Eq, Hash, Structural)]
pub struct CanonicalTileId {
    pub z: u32,
    pub x: u32,
    pub y: u32,
}

impl View for CanonicalTileId {
    type V = CanonicalTileId;

    open spec fn view(&self) -> CanonicalTileId {
        *self
    }
}

impl crate::keyed_map::MapKey for CanonicalTileId {
    fn key_eq(&self, other: &Self) -> (r: bool) {
        self.z == other.z && self.x == other.x && self.y == other.y
    }
}

/// One of the three coordinates of a tile id.
#[derive(Debug, Clone, Copy, PartialEq, Eq, Structural)]
pub enum TileAxis {
    Z,
    X,
    Y,
}

/// Why a `z/x/y` tile key could not be read.
#[derive(Debug, Clone, Copy, PartialEq, Eq, Structural)]
pub enum TileKeyError {
    /// The key has fewer than three `/`-separated parts.
    MissingCoordinate(TileAxis),
    /// A part is not a `u32` in decimal.
    InvalidCoordinate(IntParseError),
}

/// The position of the first `/` in `s`, or its length when there is none.
pub open spec fn slash_index(s: Seq<char>) -> int
    decreases s.len(),
{
    if s.len() == 0 {
        0
    } else if s[0] == '/' {
        0
    } else {
        1 + slash_index(s.drop_first())
    }
}

proof fn lemma_slash_index(s: Seq<char>)
    ensures
        0 <= slash_index(s) <= s.len(),
        slash_index(s) < s.len() ==> s[slash_index(s)] == '/',
        forall|i: int| 0 <= i < slash_index(s) ==> s[i] != '/',
    decreases s.len(),
{
    if s.len() > 0 && s[0] != '/' {
        lemma_slash_index(s.drop_first());
        assert forall|i: int| 0 <= i < slash_index(s) implies s[i] != '/' by {
            if i > 0 {
                assert(s[i] == s.drop_first()[i - 1]);
            }
        }
    }
}

/// Reads the part of a tile key for one coordinate.
pub open spec fn spec_coordinate(part: Seq<char>) -> Result<u32, TileKeyError> {
    match spec_parse_u32(part) {
        Ok(v) => Ok(v),
        Err(e) => Err(TileKeyError::InvalidCoordinate(e)),
    }
}

/// What reading the tile key `s` (`z/x/y`, extra parts ignored) gives. The parts are
/// taken in order; the first problem met decides the error.
pub open spec fn spec_parse_tile_key(s: Seq<char>) -> Result<CanonicalTileId, TileKeyError> {
    let i0 = slash_index(s);
    match spec_coordinate(s.take(i0)) {
        Err(e) => Err(e),
        Ok(z) => if i0 >= s.len() {
            Err(TileKeyError::MissingCoordinate(TileAxis::X))
        } else {
            let r1 = s.skip(i0 + 1);
            let i1 = slash_index(r1);
            match spec_coordinate(r1.take(i1)) {
                Err(e) => Err(e),
                Ok(x) => if i1 >= r1.len() {
                    Err(TileKeyError::MissingCoordinate(TileAxis::Y))
                } else {
                    let r2 = r1.skip(i1 + 1);
                    match spec_coordinate(r2.take(slash_index(r2))) {
                        Err(e) => Err(e),
                        Ok(y) => Ok(CanonicalTileId { z, x, y }),
                    }
                },
            }
        },
    }
}

/// Finds where the part starting at char position `start` ends.
fn part_end(s: &str, start: usize) -> (end: usize)
    requires
        start <= s@.len(),
    ensures
        end == start + slash_index(s@.skip(start as int)),
        start <= end <= s@.len(),
{
    proof {
        let r = s@.skip(start as int);
        lemma_slash_index(r);
        assert forall|k: int| start <= k < start + slash_index(r) implies s@[k] != '/' by {
            assert(r[k - start] == s@[k]);
        }
        if slash_index(r) < r.len() {
            assert(r[slash_index(r)] == s@[start + slash_index(r)]);
        }
    }
    let n = s.unicode_len();
    let mut i = start;
    while i < n && s.get_char(i) != '/'
        invariant
            start <= i <= n,
            n == s@.len(),
            forall|k: int| start <= k < i ==> s@[k] != '/',
            0 <= slash_index(s@.skip(start as int)) <= n - start,
            slash_index(s@.skip(start as int)) < n - start ==> s@[start + slash_index(
                s@.skip(start as int),
            )] == '/',
            forall|k: int|
                start <= k < start + slash_index(s@.skip(start as int)) ==> s@[k] != '/',
        decreases n - i,
    {
        i += 1;
    }
    i
}

fn coordinate(s: &str, start: usize, end: usize) -> (r: Result<u32, TileKeyError>)
    requires
        start <= end <= s@.len(),
    ensures
        r == spec_coordinate(s@.subrange(start as int, end as int)),
{
    match parse_u32(s.substring_char(start, end)) {
        Ok(v) => Ok(v),
        Err(e) => Err(TileKeyError::InvalidCoordinate(e)),
    }
}

/// Reads a tile key of the form `z/x/y`; parts after the third are ignored.
pub fn parse_tile_key(tile: &str) -> (r: Result<CanonicalTileId, TileKeyError>)
    ensures
        r == spec_parse_tile_key(tile@),
{
    let ghost s = tile@;
    let n = tile.unicode_len();
    let e0 = part_end(tile, 0);
    assert(s.skip(0) =~= s);
    assert(s.subrange(0, e0 as int) =~= s.take(e0 as int));
    let z = match coordinate(tile, 0, e0) {
        Ok(v) => v,
        Err(e) => return Err(e),
    };
    if e0 >= n {
        return Err(TileKeyError::MissingCoordinate(TileAxis::X));
    }
    let ghost r1 = s.skip(e0 + 1);
    let e1 = part_end(tile, e0 + 1);
    assert(s.subrange(e0 + 1, e1 as int) =~= r1.take(e1 - e0 - 1));
    let x = match coordinate(tile, e0 + 1, e1) {
        Ok(v) => v,
        Err(e) => return Err(e),
    };
    if e1 >= n {
        return Err(TileKeyError::MissingCoordinate(TileAxis::Y));
    }
    let ghost r2 = r1.skip(e1 - e0);
    assert(r2 =~= s.skip(e1 + 1));
    let e2 = part_end(tile, e1 + 1);
    assert(s.subrange(e1 + 1, e2 as int) =~= r2.take(e2 - e1 - 1));
    let y = match coordinate(tile, e1 + 1, e2) {
        Ok(v) => v,
        Err(e) => return Err(e),
    };
    Ok(CanonicalTileId { z, x, y })
}

/// What reading each of `keys` gives, in order.
pub open spec fn parsed_keys(keys: Seq<String>) -> Seq<Result<CanonicalTileId, TileKeyError>> {
    keys.map_values(|k: String| spec_parse_tile_key(k@))
}

/// Reads the ids of the tiles a map reports as active: each key parsed in turn, the
/// first key that does not parse deciding the error; a tile listed twice is kept once.
pub fn parse_active_tile_ids(keys: &[String]) -> (r: Result<Vec<CanonicalTileId>, TileKeyError>)
    ensures
        r is Ok ==> forall|j: int| 0 <= j < keys@.len() ==> (#[trigger] parsed_keys(keys@)[j]) is Ok,
        r matches Ok(ids) ==> forall|a: int|
            0 <= a < ids@.len() ==> parsed_keys(keys@).contains(Ok(#[trigger] ids@[a])),
        r matches Ok(ids) ==> forall|j: int|
            0 <= j < keys@.len() ==> ids@.contains((#[trigger] parsed_keys(keys@)[j])->Ok_0),
        r matches Ok(ids) ==> forall|a: int, b: int| 0 <= a < b < ids@.len() ==> ids@[a] != ids@[b],
        r matches Err(e) ==> exists|j: int|
            0 <= j < keys@.len() && #[trigger] parsed_keys(keys@)[j] == Err::<CanonicalTileId, TileKeyError>(e)
                && forall|k: int| 0 <= k < j ==> (#[trigger] parsed_keys(keys@)[k]) is Ok,
{
    let ghost parsed = parsed_keys(keys@);
    let mut ids: Vec<CanonicalTileId> = Vec::new();
    let mut i: usize = 0;
    while i < keys.len()
        invariant
            parsed == parsed_keys(keys@),
            parsed.len() == keys@.len(),
            i <= keys@.len(),
            forall|k: int| 0 <= k < i ==> (#[trigger] parsed[k]) is Ok,
            forall|a: int| 0 <= a < ids@.len() ==> parsed.take(i as int).contains(Ok(#[trigger] ids@[a])),
            forall|j: int| 0 <= j < i ==> ids@.contains((#[trigger] parsed[j])->Ok_0),
            forall|a: int, b: int| 0 <= a < b < ids@.len() ==> ids@[a] != ids@[b],
        decreases keys@.len() - i,
    {
        assert(parsed[i as int] == spec_parse_tile_key(keys@[i as int]@));
        let id = match parse_tile_key(keys[i].as_str()) {
            Ok(id) => id,
            Err(e) => return Err(e),
        };
        let seen = crate::tile_sync::contains_tile(ids.as_slice(), &id);
        let ghost before = ids@;
        if !seen {
            ids.push(id);
        }
        proof {
            assert(parsed.take(i + 1) =~= parsed.take(i as int).push(Ok(id)));
            assert(ids@.contains(id)) by {
                if !seen {
                    assert(ids@[before.len() as int] == id);
                }
            }
            assert forall|a: int, b: int| 0 <= a < b < ids@.len() implies ids@[a] != ids@[b] by {
                if !seen && b == before.len() {
                    assert(before.contains(before[a]));
                }
            }
            assert forall|a: int| 0 <= a < ids@.len() implies parsed.take(i + 1).contains(Ok(#[trigger] ids@[a])) by {
                if a < before.len() {
                    assert(ids@[a] == before[a]);
                    let x = choose|x: int| 0 <= x < i && parsed.take(i as int)[x] == Ok::<CanonicalTileId, TileKeyError>(before[a]);
                    assert(parsed.take(i + 1)[x] == Ok::<CanonicalTileId, TileKeyError>(before[a]));
                } else {
                    assert(parsed.take(i + 1)[i as int] == Ok::<CanonicalTileId, TileKeyError>(id));
                }
            }
            assert forall|j: int| 0 <= j < i + 1 implies ids@.contains((#[trigger] parsed[j])->Ok_0) by {
                if j < i {
                    let v = parsed[j]->Ok_0;
                    assert(before.contains(v));
                    let x = choose|x: int| 0 <= x < before.len() && before[x] == v;
                    assert(ids@[x] == v);
                }
            }
        }
        i += 1;
    }
    assert(parsed.take(keys@.len() as int) =~= parsed);
    Ok(ids)
}

/// Quadrant of a tile within its parent, as the tiling service's requests name it.
#[derive(Debug, Clone, Copy, PartialEq, Eq, Structural)]
pub enum TileSubKey {
    TopLeft,
    TopRight,
    BottomLeft,
    BottomRight,
}

/// Quadrant of a cell in a quadtree subdivision of an area.
#[derive(Debug, Clone, Copy, PartialEq, Eq, Hash, Structural)]
pub enum SubDivisionKey {
    TopLeft,
    TopRight,
    BottomLeft,
    BottomRight,
}

impl TileSubKey {
    /// The number that stands for the quadrant on the wire.
    pub open spec fn spec_repr(self) -> u8 {
        match self {
            TileSubKey::TopLeft => 3,
            TileSubKey::TopRight => 2,
            TileSubKey::BottomLeft => 1,
            TileSubKey::BottomRight => 0,
        }
    }

    /// The number that stands for the quadrant on the wire.
    pub fn to_repr(self) -> (r: u8)
        ensures
            r == self.spec_repr(),
    {
        match self {
            TileSubKey::TopLeft => 3,
            TileSubKey::TopRight => 2,
            TileSubKey::BottomLeft => 1,
            TileSubKey::BottomRight => 0,
        }
    }

    /// The quadrant a wire number stands for; numbers above 3 stand for none.
    pub fn from_repr(v: u8) -> (r: Option<TileSubKey>)
        ensures
            r matches Some(k) ==> k.spec_repr() == v,
            r is None <==> v > 3,
    {
        match v {
            3 => Some(TileSubKey::TopLeft),
            2 => Some(TileSubKey::TopRight),
            1 => Some(TileSubKey::BottomLeft),
            0 => Some(TileSubKey::BottomRight),
            _ => None,
        }
    }

    /// The two-letter code used in tile directory names.
    pub open spec fn spec_code(self) -> Seq<char> {
        match self {
            TileSubKey::TopLeft => "TL"@,
            TileSubKey::TopRight => "TR"@,
            TileSubKey::BottomLeft => "BL"@,
            TileSubKey::BottomRight => "BR"@,
        }
    }

    /// The two-letter code used in tile directory names.
    pub fn code(self) -> (r: &'static str)
        ensures
            r@ == self.spec_code(),
    {
        match self {
            TileSubKey::TopLeft => "TL",
            TileSubKey::TopRight => "TR",
            TileSubKey::BottomLeft => "BL",
            TileSubKey::BottomRight => "BR",
        }
    }
}

/// The quadtree quadrant that a requested quadrant names.
pub open spec fn spec_to_subdivision_key(key: TileSubKey) -> SubDivisionKey {
    match key {
        TileSubKey::TopLeft => SubDivisionKey::TopLeft,
        TileSubKey::TopRight => SubDivisionKey::TopRight,
        TileSubKey::BottomLeft => SubDivisionKey::BottomLeft,
        TileSubKey::BottomRight => SubDivisionKey::BottomRight,
    }
}

/// The quadtree quadrant that a requested quadrant names.
pub fn to_subdivision_key(key: &TileSubKey) -> (r: SubDivisionKey)
    ensures
        r == spec_to_subdivision_key(*key),
{
    match key {
        TileSubKey::TopLeft => SubDivisionKey::TopLeft,
        TileSubKey::TopRight => SubDivisionKey::TopRight,
        TileSubKey::BottomLeft => SubDivisionKey::BottomLeft,
        TileSubKey::BottomRight => SubDivisionKey::BottomRight,
    }
}

/// A quadrant keeps its wire number through encoding and decoding.
pub proof fn lemma_tile_sub_key_repr_round_trip(k: TileSubKey)
    ensures
        k.spec_repr() <= 3,
        forall|j: TileSubKey| j.spec_repr() == k.spec_repr() ==> j == k,
{
}

/// The quadtree path of a requested tile key.
pub fn to_subdivision_path(key: &[TileSubKey]) -> (r: Vec<SubDivisionKey>)
    ensures
        r@.len() == key@.len(),
        forall|i: int| 0 <= i < key@.len() ==> r@[i] == spec_to_subdivision_key(#[trigger] key@[i]),
{
    let mut out: Vec<SubDivisionKey> = Vec::new();
    let mut i: usize = 0;
    while i < key.len()
        invariant
            i <= key@.len(),
            out@.len() == i,
            forall|j: int| 0 <= j < i ==> out@[j] == spec_to_subdivision_key(#[trigger] key@[j]),
        decreases key@.len() - i,
    {
        out.push(to_subdivision_key(&key[i]));
        i += 1;
    }
    out
}

/// The codes of the quadrants of a key, joined by `_`.
pub open spec fn spec_joined_codes(keys: Seq<TileSubKey>) -> Seq<char>
    decreases keys.len(),
{
    if keys.len() == 0 {
        Seq::empty()
    } else if keys.len() == 1 {
        keys[0].spec_code()
    } else {
        spec_joined_codes(keys.drop_last()) + "_"@ + keys.last().spec_code()
    }
}

/// The directory name that holds a tile: `tile_` followed by the joined quadrant codes.
pub open spec fn spec_tile_key_dir_name(keys: Seq<TileSubKey>) -> Seq<char> {
    "tile_"@ + spec_joined_codes(keys)
}

/// The directory name that holds a tile: `tile_` followed by the joined quadrant codes.
pub fn tile_key_dir_name(key: &[TileSubKey]) -> (r: String)
    ensures
        r@ == spec_tile_key_dir_name(key@),
{
    let mut out = String::from_str("tile_");
    let ghost prefix = out@;
    let mut i: usize = 0;
    while i < key.len()
        invariant
            i <= key@.len(),
            out@ == prefix + spec_joined_codes(key@.take(i as int)),
            prefix == "tile_"@,
        decreases key@.len() - i,
    {
        if i > 0 {
            out.append("_");
        }
        out.append(key[i].code());
        proof {
            let t = key@.take(i + 1);
            assert(t.drop_last() =~= key@.take(i as int));
            assert(t.last() == key@[i as int]);
            if i == 0 {
                assert(spec_joined_codes(key@.take(0)) =~= Seq::<char>::empty());
            }
        }
        i += 1;
    }
    assert(key@.take(key@.len() as int) =~= key@);
    out
}

/// Imagery layers served by NASA GIBS.
#[derive(Debug, Clone, Copy, PartialEq, Eq, Hash, Structural)]
pub enum GibsLayer {
    LayerModisTerraCorrectedReflectanceTrueColor,
}

impl DeepView for GibsLayer {
    type V = GibsLayer;

    open spec fn deep_view(&self) -> GibsLayer {
        *self
    }
}

impl GibsLayer {
    /// The text under which the value is stored and displayed.
    pub open spec fn spec_name(self) -> Seq<char> {
        match self {
            GibsLayer::LayerModisTerraCorrectedReflectanceTrueColor => "LayerModisTerraCorrectedReflectanceTrueColor"@,
        }
    }

    /// The value whose name is `s`, if there is one.
    pub open spec fn spec_from_name(s: Seq<char>) -> Option<GibsLayer> {
        if s == "LayerModisTerraCorrectedReflectanceTrueColor"@ {
            Some(GibsLayer::LayerModisTerraCorrectedReflectanceTrueColor)
        } else {
            None
        }
    }

    /// The text under which the value is stored and displayed.
    pub fn name(self) -> (r: &'static str)
        ensures
            r@ == self.spec_name(),
    {
        match self {
            GibsLayer::LayerModisTerraCorrectedReflectanceTrueColor => "LayerModisTerraCorrectedReflectanceTrueColor",
        }
    }

    /// Parses a name exactly as [`Self::name`] renders it; any other text gives `None`.
    pub fn from_name(s: &str) -> (r: Option<GibsLayer>)
        ensures
            r == GibsLayer::spec_from_name(s@),
    {
        if str_eq(s, "LayerModisTerraCorrectedReflectanceTrueColor") {
            return Some(GibsLayer::LayerModisTerraCorrectedReflectanceTrueColor);
        }
        None
    }
}

/// Every name identifies its value: parsing the name of `v` gives back `v`.
pub proof fn lemma_gibs_layer_name_round_trip(v: GibsLayer)
    ensures
        GibsLayer::spec_from_name(v.spec_name()) == Some(v),
{
    reveal_strlit("LayerModisTerraCorrectedReflectanceTrueColor");
    assert("LayerModisTerraCorrectedReflectanceTrueColor"@.len() == 44);
}

/// Imagery layers rendered from local mosaics.
#[derive(Debug, Clone, Copy, PartialEq, Eq, Hash, Structural)]
pub enum LocalLayer {
    GlobalMosaicSen2,
}

impl DeepView for LocalLayer {
    type V = LocalLayer;

    open spec fn deep_view(&self) -> LocalLayer {
        *self
    }
}

impl LocalLayer {
    /// The text under which the value is stored and displayed.
    pub open spec fn spec_name(self) -> Seq<char> {
        match self {
            LocalLayer::GlobalMosaicSen2 => "GlobalMosaicSen2"@,
        }
    }

    /// The value whose name is `s`, if there is one.
    pub open spec fn spec_from_name(s: Seq<char>) -> Option<LocalLayer> {
        if s == "GlobalMosaicSen2"@ {
            Some(LocalLayer::GlobalMosaicSen2)
        } else {
            None
        }
    }

    /// The text under which the value is stored and displayed.
    pub fn name(self) -> (r: &'static str)
        ensures
            r@ == self.spec_name(),
    {
        match self {
            LocalLayer::GlobalMosaicSen2 => "GlobalMosaicSen2",
        }
    }

    /// Parses a name exactly as [`Self::name`] renders it; any other text gives `None`.
    pub fn from_name(s: &str) -> (r: Option<LocalLayer>)
        ensures
            r == LocalLayer::spec_from_name(s@),
    {
        if str_eq(s, "GlobalMosaicSen2") {
            return Some(LocalLayer::GlobalMosaicSen2);
        }
        None
    }
}

/// Every name identifies its value: parsing the name of `v` gives back `v`.
pub proof fn lemma_local_layer_name_round_trip(v: LocalLayer)
    ensures
        LocalLayer::spec_from_name(v.spec_name()) == Some(v),
{
    reveal_strlit("GlobalMosaicSen2");
    assert("GlobalMosaicSen2"@.len() == 16);
}

/// The source that a tile request draws imagery from.
#[derive(Debug, Clone, Copy, PartialEq, Eq, Structural)]
pub enum Layer {
    Gibs(GibsLayer),
    SenHub,
    Local(LocalLayer),
}

impl Layer {
    /// The name of the layer's cache directory: the layer written as `Variant(Inner)`.
    pub open spec fn spec_dir_name(self) -> Seq<char> {
        match self {
            Layer::Gibs(g) => "Gibs("@ + g.spec_name() + ")"@,
            Layer::SenHub => "SenHub"@,
            Layer::Local(l) => "Local("@ + l.spec_name() + ")"@,
        }
    }

    /// The name of the layer's cache directory: the layer written as `Variant(Inner)`.
    pub fn dir_name(&self) -> (r: String)
        ensures
            r@ == self.spec_dir_name(),
    {
        match self {
            Layer::Gibs(g) => {
                let mut s = String::from_str("Gibs(");
                s.append(g.name());
                s.append(")");
                s
            },
            Layer::SenHub => String::from_str("SenHub"),
            Layer::Local(l) => {
                let mut s = String::from_str("Local(");
                s.append(l.name());
                s.append(")");
                s
            },
        }
    }
}

/// The lowercase hexadecimal digit of `d < 16`.
pub open spec fn hex_digit(d: int) -> char {
    if d < 10 {
        ('0' as int + d) as char
    } else {
        ('a' as int + d - 10) as char
    }
}

/// `bytes` in lowercase hexadecimal, two digits per byte, high digit first.
pub open spec fn spec_hex(bytes: Seq<u8>) -> Seq<char>
    decreases bytes.len(),
{
    if bytes.len() == 0 {
        Seq::empty()
    } else {
        spec_hex(bytes.drop_last()) + seq![
            hex_digit(bytes.last() as int / 16),
            hex_digit(bytes.last() as int % 16),
        ]
    }
}

/// Renders bytes in hexadecimal.
///
/// Trusted: calls `hex::encode`, which writes each byte as two lowercase hexadecimal
/// digits, the high one first, in the order of the bytes.
#[verifier::external_body]
fn hex_encode(data: &[u8]) -> (r: String)
    ensures
        r@ == spec_hex(data@),
{
    hex::encode(data)
}

/// The path components under which a tile is cached: the layer's directory, the
/// hexadecimal rendering of the projection's description, and the tile's file name.
pub struct TileSubDir {
    pub layer: String,
    pub projection: String,
    pub file_name: String,
}

/// Where a tile of `layer` in the projection described by `projection_text`, at
/// quadtree key `tile_key`, is cached: `{layer}/{hex(projection)}/tile_{codes}.jpg`.
pub fn tile_sub_dir(layer: &Layer, projection_text: &str, tile_key: &[TileSubKey]) -> (d: TileSubDir)
    ensures
        d.layer@ == layer.spec_dir_name(),
        d.projection@ == spec_hex(projection_text.spec_bytes()),
        d.file_name@ == spec_tile_key_dir_name(tile_key@) + ".jpg"@,
{
    let mut file_name = tile_key_dir_name(tile_key);
    file_name.append(".jpg");
    TileSubDir {
        layer: layer.dir_name(),
        projection: hex_encode(projection_text.as_bytes()),
        file_name,
    }
}

} // verus!
