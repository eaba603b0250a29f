use vstd::prelude::*;

verus! {

/// Identifies one image of a pair: the pair's directory name and whether it
/// is the first (`image0`) or the second (`image1`) image.
#[derive(PartialEq, Eq, PartialOrd, Ord, Hash, Clone, Debug)]
pub struct ImageID {
    directory: String,
    is_first: bool,
}

/// The digit that stands for the position of an image in its pair.
pub open spec fn position_digit(is_first: bool) -> char {
    if is_first { '0' } else { '1' }
}

/// The text shown for an image: `<directory>-0` for the first, `<directory>-1` for the second.
pub open spec fn id_text(directory: Seq<char>, is_first: bool) -> Seq<char> {
    directory + seq!['-', position_digit(is_first)]
}

impl ImageID {
    pub closed spec fn spec_directory(&self) -> Seq<char> {
        self.directory@
    }

    pub closed spec fn spec_is_first(&self) -> bool {
        self.is_first
    }

    pub fn new(directory: String, is_first: bool) -> (id: ImageID)
        ensures
            id.spec_directory() == directory@,
            id.spec_is_first() == is_first,
    {
        ImageID { directory, is_first }
    }

    pub fn directory(&self) -> (d: &String)
        ensures
            d@ == self.spec_directory(),
    {
        &self.directory
    }

    pub fn is_first(&self) -> (b: bool)
        ensures
            b == self.spec_is_first(),
    {
        self.is_first
    }

    /// The display text of the identity, `<directory>-<0|1>`.
    pub fn to_string(&self) -> (s: String)
        ensures
            s@ == id_text(self.spec_directory(), self.spec_is_first()),
    {
        let mut s = self.directory.clone();
        if self.is_first {
            s.append("-0");
        } else {
            s.append("-1");
        }
        proof {
            reveal_strlit("-0");
            reveal_strlit("-1");
        }
        s
    }
}


/// The display text tells images apart: two identities with the same text have the
/// same directory and the same position in their pair.
pub proof fn law_id_text_identifies(d1: Seq<char>, f1: bool, d2: Seq<char>, f2: bool)
    requires
        id_text(d1, f1) == id_text(d2, f2),
    ensures
        d1 == d2,
        f1 == f2,
{
    let t = id_text(d1, f1);
    assert(t[t.len() - 1] == position_digit(f1));
    assert(id_text(d2, f2)[t.len() - 1] == position_digit(f2));
    assert(d1.len() == d2.len());
    assert(d1 =~= t.subrange(0, d1.len() as int));
    assert(d2 =~= id_text(d2, f2).subrange(0, d2.len() as int));
}

/// The display text of an image is its directory's name, a hyphen, then `0` for the
/// first image of the pair or `1` for the second, whatever the directory is called.
pub proof fn law_id_text_shape(d: Seq<char>, first: bool)
    ensures
        id_text(d, first).len() == d.len() + 2,
        id_text(d, first).subrange(0, d.len() as int) == d,
        id_text(d, first)[d.len() as int] == '-',
        id_text(d, first)[d.len() + 1int] == if first { '0' } else { '1' },
{
    assert(id_text(d, first).subrange(0, d.len() as int) =~= d);
}

/// Whether `pat` occurs in `s` as a run of consecutive characters.
pub open spec fn occurs_in(s: Seq<char>, pat: Seq<char>) -> bool {
    exists|i: int| 0 <= i && i + pat.len() <= s.len() && #[trigger] s.subrange(i, i + pat.len()) == pat
}

/// The characters of `s`, in order.
fn chars_of(s: &str) -> (v: Vec<char>)
    ensures
        v@ == s@,
{
    let n = s.unicode_len();
    let mut v: Vec<char> = Vec::new();
    for i in 0..n
        invariant
            n == s@.len(),
            v@ == s@.subrange(0, i as int),
    {
        v.push(s.get_char(i));
    }
    v
}

/// Whether `pat` occurs in `s` (the same answer as `str::contains` with a string pattern).
pub fn contains_str(s: &str, pat: &str) -> (b: bool)
    ensures
        b == occurs_in(s@, pat@),
{
    let hay = chars_of(s);
    let needle = chars_of(pat);
    let n = hay.len();
    let m = needle.len();
    if m > n {
        return false;
    }
    if m == 0 {
        assert(s@.subrange(0, 0 + pat@.len() as int) =~= pat@);
        return true;
    }
    let mut i: usize = 0;
    while i <= n - m
        invariant
            n == hay@.len(),
            m == needle@.len(),
            0 < m <= n,
            i <= n - m + 1,
            hay@ == s@,
            needle@ == pat@,
            forall|j: int| 0 <= j < i ==> #[trigger] hay@.subrange(j, j + m) != needle@,
        decreases n - m + 1 - i,
    {
        let mut k: usize = 0;
        let mut same = true;
        while k < m
            invariant
                n == hay@.len(),
                m == needle@.len(),
                i + m <= n,
                k <= m,
                same <==> forall|t: int| 0 <= t < k ==> hay@[i + t] == needle@[t],
            decreases m - k,
        {
            if hay[i + k] != needle[k] {
                same = false;
            }
            k = k + 1;
        }
        if same {
            assert(s@.subrange(i as int, i + pat@.len() as int) =~= pat@);
            return true;
        }
        assert(hay@.subrange(i as int, i + m) != needle@) by {
            let t = choose|t: int| 0 <= t < m && hay@[i + t] != needle@[t];
            assert(hay@.subrange(i as int, i + m)[t] == hay@[i + t]);
        }
        i = i + 1;
    }
    false
}

/// The text that marks a file of a pair's directory as the first image.
pub const FIRST_IMAGE_MARK: &'static str = "image0";

/// The text that marks a file of a pair's directory as the second image.
pub const SECOND_IMAGE_MARK: &'static str = "image1";

/// What an entry of a pair's directory holds: the first image, the second, both
/// (its path carries both marks), or neither.
#[derive(Debug, PartialEq, Eq, Clone, Copy, Structural)]
pub struct EntryRoles {
    pub first: bool,
    pub second: bool,
}

/// Why a directory entry cannot be part of an image pair.
#[derive(Debug, PartialEq, Eq, Clone, Copy, Structural)]
pub enum EntryError {
    /// The entry is not a regular file.
    NotAFile,
}

/// Classifies an entry of a pair's directory by its full path: an entry that is not a
/// file is refused; otherwise it is the first image when its path contains `image0`
/// and the second when it contains `image1`.
pub fn classify_entry(path: &str, is_file: bool) -> (r: Result<EntryRoles, EntryError>)
    ensures
        !is_file ==> r == Err::<EntryRoles, EntryError>(EntryError::NotAFile),
        is_file ==> r == Ok::<EntryRoles, EntryError>(
            EntryRoles {
                first: occurs_in(path@, FIRST_IMAGE_MARK@),
                second: occurs_in(path@, SECOND_IMAGE_MARK@),
            },
        ),
{
    if !is_file {
        return Err(EntryError::NotAFile);
    }
    let first = contains_str(path, FIRST_IMAGE_MARK);
    let second = contains_str(path, SECOND_IMAGE_MARK);
    Ok(EntryRoles { first, second })
}

/// Which image of a pair was not found in its directory.
#[derive(Debug, PartialEq, Eq, Clone, Copy, Structural)]
pub enum MissingImage {
    First,
    Second,
}

/// The identities of a pair's two images, once both were found in the directory
/// `directory`: a missing first image is reported before a missing second one.
pub fn pair_ids(directory: String, found_first: bool, found_second: bool) -> (r: Result<
    [ImageID; 2],
    MissingImage,
>)
    ensures
        !found_first ==> r matches Err(MissingImage::First),
        found_first && !found_second ==> r matches Err(MissingImage::Second),
        found_first && found_second ==> (r matches Ok(ids) && ids[0].spec_directory()
            == directory@ && ids[0].spec_is_first() && ids[1].spec_directory() == directory@
            && !ids[1].spec_is_first()),
{
    if !found_first {
        return Err(MissingImage::First);
    }
    if !found_second {
        return Err(MissingImage::Second);
    }
    let first = ImageID::new(directory.clone(), true);
    let second = ImageID::new(directory, false);
    Ok([first, second])
}


/// An image decoded to 8-bit RGB: `width` by `height` pixels, three bytes each, row
/// by row.
pub struct RgbPixels {
    pub width: u32,
    pub height: u32,
    pub data: Vec<u8>,
}

impl View for RgbPixels {
    type V = (u32, u32, Seq<u8>);

    /// The image as `(width, height, bytes)`.
    open spec fn view(&self) -> (u32, u32, Seq<u8>) {
        (self.width, self.height, self.data@)
    }
}

/// What decoding the file at path `path` with contents `bytes` gives: the format is
/// taken from the path's extension, and the image is converted to 8-bit RGB; or the
/// text of the error.
pub uninterp spec fn decoded_rgb(path: Seq<char>, bytes: Seq<u8>) -> Result<(u32, u32, Seq<u8>), Seq<char>>;

/// A decoding outcome as `(width, height, bytes)` or the error's text.
pub open spec fn decode_value(r: &Result<RgbPixels, String>) -> Result<(u32, u32, Seq<u8>), Seq<char>> {
    match r {
        Ok(p) => Ok(p@),
        Err(e) => Err(e@),
    }
}

/// `image::ImageFormat::from_path(path)` then `image::load_from_memory_with_format(bytes,
/// format)` and `RgbImage::from` (`DynamicImage::into_rgb8`): the contents of the file
/// at `path` decoded in the format its extension names, with default limits, as 8-bit
/// RGB pixels; or the error's text. The result is named `decoded_rgb`.
#[verifier::external_body]
fn decode_rgb(path: &str, bytes: &[u8]) -> (r: Result<RgbPixels, String>)
    ensures
        decode_value(&r) == decoded_rgb(path@, bytes@),
{
    let decoded = match image::ImageFormat::from_path(path) {
        Ok(format) => image::load_from_memory_with_format(bytes, format),
        Err(e) => Err(e),
    };
    match decoded {
        Ok(image) => {
            let rgb = image::RgbImage::from(image);
            Ok(RgbPixels { width: rgb.width(), height: rgb.height(), data: rgb.into_raw() })
        },
        Err(e) => Err(e.to_string()),
    }
}

/// The error text image-0.25.10 gives for data whose format could not be determined.
pub open spec fn undetermined_format_text() -> Seq<char> {
    "The image format could not be determined"@
}

/// The failed decoding of data whose format could not be determined.
pub open spec fn undetermined_format_outcome() -> Result<(u32, u32, Seq<u8>), Seq<char>> {
    Err(undetermined_format_text())
}

/// `image::ImageReader::new(Cursor::new(bytes)).decode()` with no format set, converted
/// like `decode_rgb`: image-0.25.10 (`ImageReader::require_format`) fails at once, without
/// reading the bytes, with the error whose text is `undetermined_format_text()`.
#[verifier::external_body]
fn decode_rgb_unformatted(bytes: &[u8]) -> (r: Result<RgbPixels, String>)
    ensures
        decode_value(&r) == undetermined_format_outcome(),
{
    match image::ImageReader::new(std::io::Cursor::new(bytes)).decode() {
        Ok(image) => {
            let rgb = image::RgbImage::from(image);
            Ok(RgbPixels { width: rgb.width(), height: rgb.height(), data: rgb.into_raw() })
        },
        Err(e) => Err(e.to_string()),
    }
}

/// What `std::path::Path::extension` gives for the path `path`, as text.
pub uninterp spec fn extension_of(path: Seq<char>) -> Option<Seq<char>>;

/// An optional text as an optional sequence of characters.
pub open spec fn opt_text(t: Option<String>) -> Option<Seq<char>> {
    match t {
        Some(t) => Some(t@),
        None => None,
    }
}

/// `std::path::Path::new(path).extension()`, as text (the extension of a path given as
/// text is itself valid text). The result is named `extension_of`.
#[verifier::external_body]
fn path_extension(path: &str) -> (e: Option<String>)
    ensures
        opt_text(e) == extension_of(path@),
{
    match std::path::Path::new(path).extension() {
        Some(ext) => Some(ext.to_string_lossy().into_owned()),
        None => None,
    }
}

/// What decoding the file at `path` with contents `bytes` gives: in the format its
/// extension names, where an empty extension (a file name ending in a dot) names no
/// format at all.
pub open spec fn decoded_file(path: Seq<char>, bytes: Seq<u8>) -> Result<(u32, u32, Seq<u8>), Seq<char>> {
    if extension_of(path) == Some(Seq::<char>::empty()) {
        undetermined_format_outcome()
    } else {
        decoded_rgb(path, bytes)
    }
}

/// Decodes the file at `path` with contents `bytes` as 8-bit RGB pixels, in the format
/// its extension names; or the error's text.
pub fn decode_file(path: &str, bytes: &[u8]) -> (r: Result<RgbPixels, String>)
    ensures
        decode_value(&r) == decoded_file(path@, bytes@),
{
    let empty_extension = match path_extension(path) {
        Some(e) => e.as_str().is_empty(),
        None => false,
    };
    if empty_extension {
        assert(extension_of(path@) == Some(Seq::<char>::empty()));
        decode_rgb_unformatted(bytes)
    } else {
        decode_rgb(path, bytes)
    }
}

/// A copy of `p`.
fn copy_pixels(p: &RgbPixels) -> (q: RgbPixels)
    ensures
        q@ == p@,
{
    let mut data: Vec<u8> = Vec::new();
    let n = p.data.len();
    for i in 0..n
        invariant
            n == p.data@.len(),
            data@ == p.data@.subrange(0, i as int),
    {
        data.push(p.data[i]);
    }
    RgbPixels { width: p.width, height: p.height, data }
}

/// The images found so far while reading a pair's directory.
pub struct PairScan {
    first: Option<RgbPixels>,
    second: Option<RgbPixels>,
}

/// An optional image as an optional `(width, height, bytes)`.
pub open spec fn pixels_value(p: Option<RgbPixels>) -> Option<(u32, u32, Seq<u8>)> {
    match p {
        Some(p) => Some(p@),
        None => None,
    }
}

/// The images found so far after a marked file with roles `roles` decodes to `d`: a
/// decoding error of a file that is the first or the second image ends the scan with
/// that error; otherwise the file becomes the first and/or the second image, replacing
/// any found before.
pub open spec fn found_after(
    found: (Option<(u32, u32, Seq<u8>)>, Option<(u32, u32, Seq<u8>)>),
    roles: EntryRoles,
    d: Result<(u32, u32, Seq<u8>), Seq<char>>,
) -> Result<(Option<(u32, u32, Seq<u8>)>, Option<(u32, u32, Seq<u8>)>), Seq<char>> {
    match d {
        Err(e) => if roles.first || roles.second {
            Err(e)
        } else {
            Ok(found)
        },
        Ok(v) => Ok(
            (
                if roles.first { Some(v) } else { found.0 },
                if roles.second { Some(v) } else { found.1 },
            ),
        ),
    }
}

/// Recording a file that is only the first image sets the first image and keeps the
/// second found so far, and symmetrically; a file that is both sets both; a decoding
/// error of a marked file ends the scan with that error, and a file that is neither image
/// changes nothing.
pub proof fn law_record_roles(
    found: (Option<(u32, u32, Seq<u8>)>, Option<(u32, u32, Seq<u8>)>),
    v: (u32, u32, Seq<u8>),
    e: Seq<char>,
)
    ensures
        found_after(found, EntryRoles { first: true, second: false }, Ok(v)) == Ok::<
            (Option<(u32, u32, Seq<u8>)>, Option<(u32, u32, Seq<u8>)>),
            Seq<char>,
        >((Some(v), found.1)),
        found_after(found, EntryRoles { first: false, second: true }, Ok(v)) == Ok::<
            (Option<(u32, u32, Seq<u8>)>, Option<(u32, u32, Seq<u8>)>),
            Seq<char>,
        >((found.0, Some(v))),
        found_after(found, EntryRoles { first: true, second: true }, Ok(v)) == Ok::<
            (Option<(u32, u32, Seq<u8>)>, Option<(u32, u32, Seq<u8>)>),
            Seq<char>,
        >((Some(v), Some(v))),
        found_after(found, EntryRoles { first: false, second: false }, Ok(v)) == Ok::<
            (Option<(u32, u32, Seq<u8>)>, Option<(u32, u32, Seq<u8>)>),
            Seq<char>,
        >(found),
        found_after(found, EntryRoles { first: true, second: false }, Err(e)) == Err::<
            (Option<(u32, u32, Seq<u8>)>, Option<(u32, u32, Seq<u8>)>),
            Seq<char>,
        >(e),
        found_after(found, EntryRoles { first: false, second: true }, Err(e)) == Err::<
            (Option<(u32, u32, Seq<u8>)>, Option<(u32, u32, Seq<u8>)>),
            Seq<char>,
        >(e),
        found_after(found, EntryRoles { first: false, second: false }, Err(e)) == Ok::<
            (Option<(u32, u32, Seq<u8>)>, Option<(u32, u32, Seq<u8>)>),
            Seq<char>,
        >(found),
{
}

/// The order in which a pair's directory lists its two images does not matter: taking
/// in the first image and then the second gives the same images as the other way round.
pub proof fn law_record_order_free(
    found: (Option<(u32, u32, Seq<u8>)>, Option<(u32, u32, Seq<u8>)>),
    a: (u32, u32, Seq<u8>),
    b: (u32, u32, Seq<u8>),
)
    ensures
        ({
            let only_first = EntryRoles { first: true, second: false };
            let only_second = EntryRoles { first: false, second: true };
            let one = found_after(found, only_first, Ok(a));
            let two = found_after(found, only_second, Ok(b));
            &&& one is Ok && two is Ok
            &&& found_after(one->Ok_0, only_second, Ok(b)) == found_after(two->Ok_0, only_first, Ok(a))
            &&& found_after(one->Ok_0, only_second, Ok(b)) == Ok::<
                (Option<(u32, u32, Seq<u8>)>, Option<(u32, u32, Seq<u8>)>),
                Seq<char>,
            >((Some(a), Some(b)))
        }),
{
}

/// A file is decoded in the format its extension names whenever it has a non-empty
/// extension or none at all; only an empty extension (a name ending in a dot) gives the
/// error that the format could not be determined.
pub proof fn law_decoded_file_by_extension(path: Seq<char>, bytes: Seq<u8>)
    ensures
        (extension_of(path) matches Some(x) && x.len() > 0) ==> decoded_file(path, bytes)
            == decoded_rgb(path, bytes),
        extension_of(path) is None ==> decoded_file(path, bytes) == decoded_rgb(path, bytes),
        (extension_of(path) matches Some(x) && x.len() == 0) ==> decoded_file(path, bytes) == Err::<
            (u32, u32, Seq<u8>),
            Seq<char>,
        >("The image format could not be determined"@),
{
    if let Some(x) = extension_of(path) {
        if x.len() > 0 {
            assert(x != Seq::<char>::empty());
        } else {
            assert(x =~= Seq::<char>::empty());
        }
    }
}

impl PairScan {
    /// The first and second images found so far.
    pub closed spec fn found(&self) -> (Option<(u32, u32, Seq<u8>)>, Option<(u32, u32, Seq<u8>)>) {
        (pixels_value(self.first), pixels_value(self.second))
    }

    /// A scan that has found neither image.
    pub fn new() -> (s: PairScan)
        ensures
            s.found() == (None::<(u32, u32, Seq<u8>)>, None::<(u32, u32, Seq<u8>)>),
    {
        PairScan { first: None, second: None }
    }

    /// Takes in the outcome `decoded` of decoding a file whose roles `classify_entry`
    /// gave: a decoded first or second image is kept, replacing any found before. A
    /// decoding error of such a file leaves the scan as it was and is returned; for a
    /// file that is neither image the outcome is ignored.
    pub fn record(&mut self, roles: EntryRoles, decoded: Result<RgbPixels, String>) -> (r: Result<(), String>)
        ensures
            found_after(old(self).found(), roles, decode_value(&decoded)) matches Ok(f) ==> (r is Ok
                && final(self).found() == f),
            found_after(old(self).found(), roles, decode_value(&decoded)) matches Err(e) ==> (r
                matches Err(m) && m@ == e && final(self).found() == old(self).found()),
    {
        match decoded {
            Err(e) => {
                if roles.first || roles.second {
                    Err(e)
                } else {
                    Ok(())
                }
            },
            Ok(p) => {
                if roles.second {
                    if roles.first {
                        self.second = Some(copy_pixels(&p));
                    } else {
                        self.second = Some(p);
                        return Ok(());
                    }
                }
                if roles.first {
                    self.first = Some(p);
                }
                Ok(())
            },
        }
    }

    /// Takes in the file at `path`, with contents `bytes`, whose roles `classify_entry`
    /// gave: a first or second image is decoded and kept (see `record`).
    pub fn accept(&mut self, path: &str, roles: EntryRoles, bytes: &[u8]) -> (r: Result<(), String>)
        ensures
            found_after(old(self).found(), roles, decoded_file(path@, bytes@)) matches Ok(f) ==> (r
                is Ok && final(self).found() == f),
            found_after(old(self).found(), roles, decoded_file(path@, bytes@)) matches Err(e) ==> (r
                matches Err(m) && m@ == e && final(self).found() == old(self).found()),
    {
        if roles.first || roles.second {
            let decoded = decode_file(path, bytes);
            self.record(roles, decoded)
        } else {
            Ok(())
        }
    }

    /// Ends the scan of directory `directory`: the identities and images of the pair,
    /// or which image was not found (the first is reported before the second).
    pub fn finish(self, directory: String) -> (r: Result<([ImageID; 2], RgbPixels, RgbPixels), MissingImage>)
        ensures
            self.found().0 is None ==> r matches Err(MissingImage::First),
            self.found().0 is Some && self.found().1 is None ==> r matches Err(MissingImage::Second),
            self.found().0 is Some && self.found().1 is Some ==> (r matches Ok((ids, a, b))
                && ids[0].spec_directory() == directory@ && ids[0].spec_is_first()
                && ids[1].spec_directory() == directory@ && !ids[1].spec_is_first()
                && Some(a@) == self.found().0 && Some(b@) == self.found().1),
    {
        let PairScan { first, second } = self;
        let ids = match pair_ids(directory, first.is_some(), second.is_some()) {
            Ok(ids) => ids,
            Err(m) => {
                return Err(m);
            },
        };
        match (first, second) {
            (Some(a), Some(b)) => Ok((ids, a, b)),
            _ => Err(MissingImage::First),
        }
    }
}

} // verus!
