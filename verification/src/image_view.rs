//! Image views (`NSImageView`): the native values of symbol weight and image
//! scaling, what the native view is given for each kind of image source, and
//! what becomes of a loaded image resource.

use vstd::prelude::*;

verus! {

/// SF Symbol weight.
#[derive(Clone, Copy, Debug, PartialEq, Eq, Structural)]
pub enum NativeImageSymbolWeight {
    /// Ultra-light.
    UltraLight,
    /// Thin.
    Thin,
    /// Light.
    Light,
    /// Regular.
    Regular,
    /// Medium.
    Medium,
    /// Semibold.
    Semibold,
    /// Bold.
    Bold,
    /// Heavy.
    Heavy,
    /// Black.
    Black,
}

impl Default for NativeImageSymbolWeight {
    fn default() -> (s: Self)
        ensures
            s == NativeImageSymbolWeight::Regular,
    {
        NativeImageSymbolWeight::Regular
    }
}

/// The weight's rank, from ultra-light (1) to black (9).
pub open spec fn symbol_weight_raw(s: NativeImageSymbolWeight) -> i64 {
    match s {
        NativeImageSymbolWeight::UltraLight => 1,
        NativeImageSymbolWeight::Thin => 2,
        NativeImageSymbolWeight::Light => 3,
        NativeImageSymbolWeight::Regular => 4,
        NativeImageSymbolWeight::Medium => 5,
        NativeImageSymbolWeight::Semibold => 6,
        NativeImageSymbolWeight::Bold => 7,
        NativeImageSymbolWeight::Heavy => 8,
        NativeImageSymbolWeight::Black => 9,
    }
}

impl NativeImageSymbolWeight {
    /// The weight's rank, from ultra-light (1) to black (9).
    pub fn to_raw(self) -> (r: i64)
        ensures
            r == symbol_weight_raw(self),
    {
        match self {
            NativeImageSymbolWeight::UltraLight => 1,
            NativeImageSymbolWeight::Thin => 2,
            NativeImageSymbolWeight::Light => 3,
            NativeImageSymbolWeight::Regular => 4,
            NativeImageSymbolWeight::Medium => 5,
            NativeImageSymbolWeight::Semibold => 6,
            NativeImageSymbolWeight::Bold => 7,
            NativeImageSymbolWeight::Heavy => 8,
            NativeImageSymbolWeight::Black => 9,
        }
    }
}

/// How an image is scaled into the view.
#[derive(Clone, Copy, Debug, PartialEq, Eq, Structural)]
pub enum NativeImageScaling {
    /// Not scaled.
    NoScaling,
    /// Scaled down proportionally to fit.
    ScaleDown,
    /// Each axis scaled to fill.
    ScaleAxesIndependently,
    /// Scaled proportionally up or down to fit.
    ScaleUpOrDown,
}

impl Default for NativeImageScaling {
    fn default() -> (s: Self)
        ensures
            s == NativeImageScaling::NoScaling,
    {
        NativeImageScaling::NoScaling
    }
}

/// The `NSImageScaling` value.
pub open spec fn image_scaling_raw(s: NativeImageScaling) -> i64 {
    match s {
        NativeImageScaling::NoScaling => 0,
        NativeImageScaling::ScaleDown => 1,
        NativeImageScaling::ScaleAxesIndependently => 2,
        NativeImageScaling::ScaleUpOrDown => 3,
    }
}

impl NativeImageScaling {
    /// The `NSImageScaling` value.
    pub fn to_raw(self) -> (r: i64)
        ensures
            r == image_scaling_raw(self),
    {
        match self {
            NativeImageScaling::NoScaling => 0,
            NativeImageScaling::ScaleDown => 1,
            NativeImageScaling::ScaleAxesIndependently => 2,
            NativeImageScaling::ScaleUpOrDown => 3,
        }
    }
}

/// Where an image view's picture comes from. `P` is the type of a symbol's
/// point size and `R` that of a resource the glue loads; the library carries
/// both without reading them.
pub enum NativeImageSource<P, R> {
    /// A system symbol by name, with an optional point size and a weight.
    SfSymbol { name: String, point_size: Option<P>, weight: NativeImageSymbolWeight },
    /// Encoded image bytes (PNG, JPEG and the like).
    Data(Vec<u8>),
    /// An image the glue loads from a URI, a file or the embedded assets.
    Resource(R),
}

/// What the glue's asset cache reports for a resource.
pub enum ImageAssetState {
    /// The resource's bytes.
    Loaded(Vec<u8>),
    /// Loading failed.
    Failed,
    /// Still loading.
    Loading,
}

/// What the native image view is given: a symbol by name, a symbol with point
/// size and raw weight, or image bytes; and whether a resource is still
/// loading.
pub struct ResolvedImage<P> {
    pub sf_symbol: Option<String>,
    pub sf_symbol_config: Option<(String, P, i64)>,
    pub image_data: Option<Vec<u8>>,
    pub pending: bool,
}

/// The resource of a source that is one, which the glue asks its asset cache for.
pub fn image_source_resource<P, R>(source: &Option<NativeImageSource<P, R>>) -> (r: Option<&R>)
    ensures
        r == (match source {
            Some(NativeImageSource::Resource(res)) => Some(res),
            _ => None,
        }),
{
    match source {
        Some(NativeImageSource::Resource(res)) => Some(res),
        _ => None,
    }
}

/// What the native view is given for `source`. A symbol with a point size is
/// passed with its size and raw weight, one without by name; bytes are passed
/// as they are; a resource is passed as the bytes `asset` reports, nothing when
/// loading failed, and nothing but pending while it loads (or before the cache
/// was asked). No source gives nothing.
pub fn resolve_image_source<P: Copy, R>(
    source: &Option<NativeImageSource<P, R>>,
    asset: Option<ImageAssetState>,
) -> (r: ResolvedImage<P>)
    ensures
        match source {
            None => r.sf_symbol is None && r.sf_symbol_config is None && r.image_data is None && !r.pending,
            Some(NativeImageSource::SfSymbol { name, point_size, weight }) => match point_size {
                Some(pt) => {
                    &&& r.sf_symbol is None
                    &&& r.sf_symbol_config matches Some((n, p, w)) && n@ == name@ && p == pt && w
                        == symbol_weight_raw(*weight)
                    &&& r.image_data is None
                    &&& !r.pending
                },
                None => {
                    &&& r.sf_symbol matches Some(n) && n@ == name@
                    &&& r.sf_symbol_config is None
                    &&& r.image_data is None
                    &&& !r.pending
                },
            },
            Some(NativeImageSource::Data(data)) => {
                &&& r.sf_symbol is None
                &&& r.sf_symbol_config is None
                &&& r.image_data matches Some(d) && d@ == data@
                &&& !r.pending
            },
            Some(NativeImageSource::Resource(_)) => {
                &&& r.sf_symbol is None
                &&& r.sf_symbol_config is None
                &&& match asset {
                    Some(ImageAssetState::Loaded(bytes)) => r.image_data matches Some(d) && d@ == bytes@
                        && !r.pending,
                    Some(ImageAssetState::Failed) => r.image_data is None && !r.pending,
                    _ => r.image_data is None && r.pending,
                }
            },
        },
{
    match source {
        None => ResolvedImage { sf_symbol: None, sf_symbol_config: None, image_data: None, pending: false },
        Some(NativeImageSource::SfSymbol { name, point_size, weight }) => match point_size {
            Some(pt) => ResolvedImage {
                sf_symbol: None,
                sf_symbol_config: Some((name.clone(), *pt, weight.to_raw())),
                image_data: None,
                pending: false,
            },
            None => ResolvedImage {
                sf_symbol: Some(name.clone()),
                sf_symbol_config: None,
                image_data: None,
                pending: false,
            },
        },
        Some(NativeImageSource::Data(data)) => ResolvedImage {
            sf_symbol: None,
            sf_symbol_config: None,
            image_data: Some(data.clone()),
            pending: false,
        },
        Some(NativeImageSource::Resource(_)) => match asset {
            Some(ImageAssetState::Loaded(bytes)) => ResolvedImage {
                sf_symbol: None,
                sf_symbol_config: None,
                image_data: Some(bytes),
                pending: false,
            },
            Some(ImageAssetState::Failed) => ResolvedImage {
                sf_symbol: None,
                sf_symbol_config: None,
                image_data: None,
                pending: false,
            },
            _ => ResolvedImage { sf_symbol: None, sf_symbol_config: None, image_data: None, pending: true },
        },
    }
}

/// Why an image resource could not be loaded.
pub enum NativeImageLoadError {
    /// Another failure, described.
    Other(String),
    /// A file could not be read, described.
    Io(String),
    /// The server answered with a status outside the success range.
    BadStatus { uri: String, status: u16, body: String },
    /// An embedded asset is missing, described.
    Asset(String),
}

/// The text `String::from_utf8_lossy` makes of some bytes.
pub uninterp spec fn utf8_lossy(bytes: Seq<u8>) -> Seq<char>;

/// Whether a character has the Unicode White_Space property, which is what
/// `char::is_whitespace` tests: tab to carriage return, space, next line,
/// no-break space, ogham space, the spaces from en quad to hair space, line and
/// paragraph separators, narrow no-break space, medium mathematical space and
/// ideographic space.
pub open spec fn is_white_space(c: char) -> bool {
    let n = c as u32;
    ||| 0x09 <= n <= 0x0d
    ||| n == 0x20
    ||| n == 0x85
    ||| n == 0xa0
    ||| n == 0x1680
    ||| 0x2000 <= n <= 0x200a
    ||| n == 0x2028
    ||| n == 0x2029
    ||| n == 0x202f
    ||| n == 0x205f
    ||| n == 0x3000
}

/// A string without its trailing whitespace, as `str::trim_end` leaves it: the
/// longest prefix after which only whitespace follows.
pub open spec fn trimmed_end(s: Seq<char>) -> Seq<char>
    decreases s.len(),
{
    if s.len() > 0 && is_white_space(s.last()) {
        trimmed_end(s.drop_last())
    } else {
        s
    }
}

/// `String::from_utf8_lossy`: the bytes decoded as UTF-8, each invalid
/// sequence replaced by U+FFFD. The contract names the result and states
/// nothing more of it.
#[verifier::external_body]
fn text_of_bytes(bytes: &[u8]) -> (s: String)
    ensures
        s@ == utf8_lossy(bytes@),
{
    String::from_utf8_lossy(bytes).into_owned()
}

fn white_space(c: char) -> (r: bool)
    ensures
        r == is_white_space(c),
{
    let n = c as u32;
    (0x09 <= n && n <= 0x0d) || n == 0x20 || n == 0x85 || n == 0xa0 || n == 0x1680 || (0x2000 <= n
        && n <= 0x200a) || n == 0x2028 || n == 0x2029 || n == 0x202f || n == 0x205f || n == 0x3000
}

/// The string with its trailing whitespace removed.
fn trim_end(s: &str) -> (r: &str)
    ensures
        r@ == trimmed_end(s@),
{
    let mut k = s.unicode_len();
    assert(s@.subrange(0, k as int) =~= s@);
    while k > 0 && white_space(s.get_char(k - 1))
        invariant
            k <= s@.len(),
            trimmed_end(s@.subrange(0, k as int)) == trimmed_end(s@),
        decreases k,
    {
        let ghost p = s@.subrange(0, k as int);
        assert(p.drop_last() =~= s@.subrange(0, k - 1));
        k = k - 1;
    }
    let r = s.substring_char(0, k);
    assert(trimmed_end(s@.subrange(0, k as int)) == s@.subrange(0, k as int)) by {
        let p = s@.subrange(0, k as int);
        if k > 0 {
            assert(p.last() == s@[k - 1]);
        }
    }
    r
}

/// Whether `k` is where the first line of `s` ends: the first line feed, or
/// the end of a text without one.
pub open spec fn first_line_end(s: Seq<char>, k: int) -> bool {
    &&& 0 <= k <= s.len()
    &&& forall|j: int| 0 <= j < k ==> s[j] != '\n'
    &&& k == s.len() || s[k] == '\n'
}

/// The first line of a text without its trailing whitespace.
pub fn first_line(text: &str) -> (r: String)
    ensures
        exists|k: int| first_line_end(text@, k) && r@ == trimmed_end(text@.subrange(0, k)),
{
    let n = text.unicode_len();
    let mut k: usize = 0;
    while k < n && text.get_char(k) != '\n'
        invariant
            n == text@.len(),
            k <= n,
            forall|j: int| 0 <= j < k ==> text@[j] != '\n',
        decreases n - k,
    {
        k = k + 1;
    }
    let line = text.substring_char(0, k);
    let r = trim_end(line).to_string();
    assert(first_line_end(text@, k as int));
    r
}

/// Whether an HTTP status is in the success range, 200 to 299.
pub open spec fn is_success_status(status: u16) -> bool {
    200 <= status <= 299
}

/// What a download of an image gives: the body when the status is a success,
/// else the error naming the URI, the status and the first line of the body
/// read as text.
pub fn image_download_result(uri: &str, status: u16, body: Vec<u8>) -> (r: Result<
    Vec<u8>,
    NativeImageLoadError,
>)
    ensures
        is_success_status(status) ==> (r matches Ok(b) && b@ == body@),
        !is_success_status(status) ==> (r matches Err(NativeImageLoadError::BadStatus { uri: u, status: st, body: b })
            && u@ == uri@ && st == status && exists|k: int|
            first_line_end(utf8_lossy(body@), k) && b@ == trimmed_end(utf8_lossy(body@).subrange(0, k))),
{
    if 200 <= status && status <= 299 {
        Ok(body)
    } else {
        let text = text_of_bytes(body.as_slice());
        let line = first_line(text.as_str());
        Err(NativeImageLoadError::BadStatus { uri: uri.to_string(), status, body: line })
    }
}

/// What a lookup of an embedded image gives: its bytes, or an error naming
/// the missing path.
pub fn embedded_image_result(path: &str, data: Option<Vec<u8>>) -> (r: Result<Vec<u8>, NativeImageLoadError>)
    ensures
        data is Some ==> (r matches Ok(b) && b@ == data->0@),
        data is None ==> (r matches Err(NativeImageLoadError::Asset(m)) && m@ == "Embedded resource not found: "@
            + path@),
{
    match data {
        Some(bytes) => Ok(bytes),
        None => {
            let mut message = String::from_str("Embedded resource not found: ");
            message.append(path);
            Err(NativeImageLoadError::Asset(message))
        },
    }
}

} // verus!
