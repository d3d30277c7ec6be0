//! The asset loader: which assets of a script are known, under which path.
//!
//! The loader keeps one entry for each resolved path. Whether a file is
//! there, and what a font file holds, is for the caller to find out; it
//! hands the loader what it found.

use vstd::prelude::*;
use crate::decimal::Decimal;
use crate::digits::{append_decimal, spec_decimal_chars};
use crate::text::str_equal;

verus! {

/// Width recorded for an image or a video until it is decoded.
pub const STUB_WIDTH: u32 = 1920;

/// Height recorded for an image or a video until it is decoded.
pub const STUB_HEIGHT: u32 = 1080;

/// Asset types that can be loaded.
#[derive(Clone, Debug)]
pub enum Asset {
    Image(ImageAsset),
    Video(VideoAsset),
    Font(FontAsset),
}

/// Image asset.
#[derive(Clone, Debug)]
pub struct ImageAsset {
    pub path: String,
    pub width: u32,
    pub height: u32,
}

/// Video asset.
#[derive(Clone, Debug)]
pub struct VideoAsset {
    pub path: String,
    pub width: u32,
    pub height: u32,
    pub fps: Decimal,
    pub duration: Decimal,
}

/// Font asset.
#[derive(Clone, Debug)]
pub struct FontAsset {
    pub path: String,
    pub data: Vec<u8>,
}

/// Statistics about loaded assets.
#[derive(Clone, Copy, Debug, PartialEq, Eq, Structural)]
pub struct AssetStats {
    pub total: usize,
    pub images: usize,
    pub videos: usize,
    pub fonts: usize,
}

/// Why an asset could not be had.
#[derive(Clone, Copy, Debug, PartialEq, Eq, Structural)]
pub enum AssetError {
    /// There is no file for the image.
    ImageNotFound,
    /// There is no file for the video.
    VideoNotFound,
    /// The font file could not be read.
    FontUnreadable,
    /// The path is known, as something other than an image.
    NotAnImage,
    /// The path is known, as something other than a video.
    NotAVideo,
    /// The path is known, as something other than a font.
    NotAFont,
}

/// Whether a path starts at the root.
pub open spec fn spec_is_absolute(path: Seq<char>) -> bool {
    path.len() > 0 && path[0] == '/'
}

/// A path seen from `base`: an absolute path is itself; any other follows
/// `base`, with one `/` between the two unless `base` is empty or ends in
/// one.
pub open spec fn spec_resolve_path(base: Seq<char>, path: Seq<char>) -> Seq<char> {
    if spec_is_absolute(path) || base.len() == 0 {
        path
    } else if base.last() == '/' {
        base + path
    } else {
        base + seq!['/'] + path
    }
}

/// The first entry at or after `from` with the given path.
pub open spec fn spec_asset_lookup(assets: Seq<(String, Asset)>, path: Seq<char>, from: int) -> Option<
    int,
>
    decreases assets.len() - from,
{
    if from < 0 || from >= assets.len() {
        None
    } else if assets[from].0@ == path {
        Some(from)
    } else {
        spec_asset_lookup(assets, path, from + 1)
    }
}

/// The number of images, videos and fonts among the first `n` assets.
pub open spec fn spec_asset_counts(assets: Seq<(String, Asset)>, n: int) -> (int, int, int)
    decreases n,
{
    if n <= 0 {
        (0, 0, 0)
    } else {
        let (images, videos, fonts) = spec_asset_counts(assets, n - 1);
        match assets[n - 1].1 {
            Asset::Image(_) => (images + 1, videos, fonts),
            Asset::Video(_) => (images, videos + 1, fonts),
            Asset::Font(_) => (images, videos, fonts + 1),
        }
    }
}

/// No path has two entries.
pub open spec fn spec_assets_distinct(assets: Seq<(String, Asset)>) -> bool {
    forall|i: int, j: int|
        0 <= i < j < assets.len() ==> (#[trigger] assets[i]).0@ != (#[trigger] assets[j]).0@
}

/// The statistics in words.
pub open spec fn spec_stats_text(stats: AssetStats) -> Seq<char> {
    "Total: "@ + spec_decimal_chars(stats.total as nat) + ", Images: "@ + spec_decimal_chars(
        stats.images as nat,
    ) + ", Videos: "@ + spec_decimal_chars(stats.videos as nat) + ", Fonts: "@
        + spec_decimal_chars(stats.fonts as nat)
}

impl AssetStats {
    /// The statistics in words.
    pub fn describe(&self) -> (text: String)
        ensures
            text@ == spec_stats_text(*self),
    {
        let mut text = String::from_str("Total: ");
        append_decimal(&mut text, self.total as u64);
        text.append(", Images: ");
        append_decimal(&mut text, self.images as u64);
        text.append(", Videos: ");
        append_decimal(&mut text, self.videos as u64);
        text.append(", Fonts: ");
        append_decimal(&mut text, self.fonts as u64);
        text
    }
}

/// Asset loader that manages loading and caching of assets.
pub struct AssetLoader {
    assets: Vec<(String, Asset)>,
    base_path: String,
}

impl AssetLoader {
    /// The known assets with their resolved paths, oldest first.
    pub closed spec fn spec_assets(&self) -> Seq<(String, Asset)> {
        self.assets@
    }

    /// The path that relative paths are resolved against.
    pub closed spec fn spec_base_path(&self) -> Seq<char> {
        self.base_path@
    }

    /// No path has two entries.
    pub open spec fn wf(&self) -> bool {
        spec_assets_distinct(self.spec_assets())
    }

    /// Create a new asset loader with a base path for resolving relative
    /// paths.
    pub fn new(base_path: &str) -> (loader: AssetLoader)
        ensures
            loader.wf(),
            loader.spec_base_path() == base_path@,
            loader.spec_assets().len() == 0,
    {
        AssetLoader { assets: Vec::new(), base_path: String::from_str(base_path) }
    }

    /// The path that relative paths are resolved against.
    pub fn base_path(&self) -> (base: &str)
        ensures
            base@ == self.spec_base_path(),
    {
        self.base_path.as_str()
    }

    /// Resolve a path relative to the base path.
    pub fn resolve_path(&self, path: &str) -> (full: String)
        ensures
            full@ == spec_resolve_path(self.spec_base_path(), path@),
    {
        let path_bytes = path.as_bytes();
        let base_bytes = self.base_path.as_str().as_bytes();
        proof {
            lemma_first_byte(path@);
            lemma_last_byte(self.base_path@);
            reveal_strlit("/");
        }
        if (path_bytes.len() > 0 && path_bytes[0] == 47) || base_bytes.len() == 0 {
            String::from_str(path)
        } else if base_bytes[base_bytes.len() - 1] == 47 {
            let mut full = String::from_str(self.base_path.as_str());
            full.append(path);
            full
        } else {
            let mut full = String::from_str(self.base_path.as_str());
            full.append("/");
            full.append(path);
            full
        }
    }

    /// The index of the asset with the given resolved path.
    fn lookup(&self, full: &str) -> (found: Option<usize>)
        ensures
            match found {
                Some(k) => k < self.spec_assets().len() && spec_asset_lookup(
                    self.spec_assets(),
                    full@,
                    0,
                ) == Some(k as int) && self.spec_assets()[k as int].0@ == full@,
                None => spec_asset_lookup(self.spec_assets(), full@, 0).is_none(),
            },
    {
        let mut i: usize = 0;
        while i < self.assets.len()
            invariant
                i <= self.assets@.len(),
                spec_asset_lookup(self.assets@, full@, 0) == spec_asset_lookup(
                    self.assets@,
                    full@,
                    i as int,
                ),
            decreases self.assets@.len() - i,
        {
            if str_equal(self.assets[i].0.as_str(), full) {
                return Some(i);
            }
            i = i + 1;
        }
        None
    }

    /// Whether an asset is known under the path.
    pub fn is_loaded(&self, path: &str) -> (loaded: bool)
        ensures
            loaded == spec_asset_lookup(
                self.spec_assets(),
                spec_resolve_path(self.spec_base_path(), path@),
                0,
            ).is_some(),
    {
        let full = self.resolve_path(path);
        self.lookup(full.as_str()).is_some()
    }

    /// Enter an asset under a resolved path that is not known yet.
    fn insert(&mut self, full: String, asset: Asset) -> (index: usize)
        requires
            old(self).wf(),
            spec_asset_lookup(old(self).spec_assets(), full@, 0).is_none(),
        ensures
            final(self).wf(),
            index == old(self).spec_assets().len(),
            final(self).spec_assets() == old(self).spec_assets().push((full, asset)),
            final(self).spec_base_path() == old(self).spec_base_path(),
    {
        proof {
            lemma_asset_lookup_none(self.assets@, full@, 0);
        }
        let index = self.assets.len();
        self.assets.push((full, asset));
        index
    }

    /// Load an image asset. `exists` says whether there is a file at the
    /// resolved path. A path that is known already is answered from the
    /// entry that is there.
    pub fn load_image(&mut self, path: &str, exists: bool) -> (result: Result<
        &ImageAsset,
        AssetError,
    >)
        requires
            old(self).wf(),
        ensures
            final(self).wf(),
            final(self).spec_base_path() == old(self).spec_base_path(),
            ({
                let full = spec_resolve_path(old(self).spec_base_path(), path@);
                let assets = old(self).spec_assets();
                match spec_asset_lookup(assets, full, 0) {
                    Some(k) => {
                        &&& final(self).spec_assets() == assets
                        &&& match assets[k].1 {
                            Asset::Image(image) => result == Ok::<&ImageAsset, AssetError>(&image),
                            _ => result == Err::<&ImageAsset, AssetError>(AssetError::NotAnImage),
                        }
                    },
                    None => if exists {
                        &&& result.is_ok()
                        &&& result.unwrap().path@ == full
                        &&& result.unwrap().width == STUB_WIDTH
                        &&& result.unwrap().height == STUB_HEIGHT
                        &&& final(self).spec_assets().len() == assets.len() + 1
                        &&& final(self).spec_assets().drop_last() == assets
                        &&& final(self).spec_assets().last().0@ == full
                        &&& final(self).spec_assets().last().1 == Asset::Image(*result.unwrap())
                    } else {
                        &&& result == Err::<&ImageAsset, AssetError>(AssetError::ImageNotFound)
                        &&& final(self).spec_assets() == assets
                    },
                }
            }),
    {
        let full = self.resolve_path(path);
        let index: usize = match self.lookup(full.as_str()) {
            Some(k) => k,
            None => {
                if !exists {
                    return Err(AssetError::ImageNotFound);
                }
                let asset = Asset::Image(
                    ImageAsset { path: full.clone(), width: STUB_WIDTH, height: STUB_HEIGHT },
                );
                let ghost before = self.assets@;
                let k = self.insert(full, asset);
                assert(self.assets@.drop_last() =~= before);
                k
            },
        };
        match &self.assets[index].1 {
            Asset::Image(image) => Ok(image),
            _ => Err(AssetError::NotAnImage),
        }
    }

    /// Load a video asset. `exists` says whether there is a file at the
    /// resolved path. Until videos are decoded, every video is recorded
    /// with the stub size, 30 frames per second and 10 seconds.
    pub fn load_video(&mut self, path: &str, exists: bool) -> (result: Result<
        &VideoAsset,
        AssetError,
    >)
        requires
            old(self).wf(),
        ensures
            final(self).wf(),
            final(self).spec_base_path() == old(self).spec_base_path(),
            ({
                let full = spec_resolve_path(old(self).spec_base_path(), path@);
                let assets = old(self).spec_assets();
                match spec_asset_lookup(assets, full, 0) {
                    Some(k) => {
                        &&& final(self).spec_assets() == assets
                        &&& match assets[k].1 {
                            Asset::Video(video) => result == Ok::<&VideoAsset, AssetError>(&video),
                            _ => result == Err::<&VideoAsset, AssetError>(AssetError::NotAVideo),
                        }
                    },
                    None => if exists {
                        &&& result.is_ok()
                        &&& result.unwrap().path@ == full
                        &&& result.unwrap().width == STUB_WIDTH
                        &&& result.unwrap().height == STUB_HEIGHT
                        &&& result.unwrap().fps.millis == 30_000
                        &&& result.unwrap().duration.millis == 10_000
                        &&& final(self).spec_assets().len() == assets.len() + 1
                        &&& final(self).spec_assets().drop_last() == assets
                        &&& final(self).spec_assets().last().0@ == full
                        &&& final(self).spec_assets().last().1 == Asset::Video(*result.unwrap())
                    } else {
                        &&& result == Err::<&VideoAsset, AssetError>(AssetError::VideoNotFound)
                        &&& final(self).spec_assets() == assets
                    },
                }
            }),
    {
        let full = self.resolve_path(path);
        let index: usize = match self.lookup(full.as_str()) {
            Some(k) => k,
            None => {
                if !exists {
                    return Err(AssetError::VideoNotFound);
                }
                let asset = Asset::Video(
                    VideoAsset {
                        path: full.clone(),
                        width: STUB_WIDTH,
                        height: STUB_HEIGHT,
                        fps: Decimal { millis: 30_000 },
                        duration: Decimal { millis: 10_000 },
                    },
                );
                let ghost before = self.assets@;
                let k = self.insert(full, asset);
                assert(self.assets@.drop_last() =~= before);
                k
            },
        };
        match &self.assets[index].1 {
            Asset::Video(video) => Ok(video),
            _ => Err(AssetError::NotAVideo),
        }
    }

    /// Load a font asset. `data` is what the file at the resolved path
    /// holds, or `None` where it could not be read.
    pub fn load_font(&mut self, path: &str, data: Option<Vec<u8>>) -> (result: Result<
        &FontAsset,
        AssetError,
    >)
        requires
            old(self).wf(),
        ensures
            final(self).wf(),
            final(self).spec_base_path() == old(self).spec_base_path(),
            ({
                let full = spec_resolve_path(old(self).spec_base_path(), path@);
                let assets = old(self).spec_assets();
                match spec_asset_lookup(assets, full, 0) {
                    Some(k) => {
                        &&& final(self).spec_assets() == assets
                        &&& match assets[k].1 {
                            Asset::Font(font) => result == Ok::<&FontAsset, AssetError>(&font),
                            _ => result == Err::<&FontAsset, AssetError>(AssetError::NotAFont),
                        }
                    },
                    None => match data {
                        Some(bytes) => {
                            &&& result.is_ok()
                            &&& result.unwrap().path@ == full
                            &&& result.unwrap().data == bytes
                            &&& final(self).spec_assets().len() == assets.len() + 1
                            &&& final(self).spec_assets().drop_last() == assets
                            &&& final(self).spec_assets().last().0@ == full
                            &&& final(self).spec_assets().last().1 == Asset::Font(*result.unwrap())
                        },
                        None => {
                            &&& result == Err::<&FontAsset, AssetError>(AssetError::FontUnreadable)
                            &&& final(self).spec_assets() == assets
                        },
                    },
                }
            }),
    {
        let full = self.resolve_path(path);
        let index: usize = match self.lookup(full.as_str()) {
            Some(k) => k,
            None => {
                match data {
                    None => {
                        return Err(AssetError::FontUnreadable);
                    },
                    Some(bytes) => {
                        let asset = Asset::Font(FontAsset { path: full.clone(), data: bytes });
                        let ghost before = self.assets@;
                        let k = self.insert(full, asset);
                        assert(self.assets@.drop_last() =~= before);
                        k
                    },
                }
            },
        };
        match &self.assets[index].1 {
            Asset::Font(font) => Ok(font),
            _ => Err(AssetError::NotAFont),
        }
    }

    /// Get statistics about loaded assets.
    pub fn stats(&self) -> (stats: AssetStats)
        ensures
            stats.total == self.spec_assets().len(),
            stats.images == spec_asset_counts(
                self.spec_assets(),
                self.spec_assets().len() as int,
            ).0,
            stats.videos == spec_asset_counts(
                self.spec_assets(),
                self.spec_assets().len() as int,
            ).1,
            stats.fonts == spec_asset_counts(
                self.spec_assets(),
                self.spec_assets().len() as int,
            ).2,
            stats.total == stats.images + stats.videos + stats.fonts,
    {
        let mut images: usize = 0;
        let mut videos: usize = 0;
        let mut fonts: usize = 0;
        let mut i: usize = 0;
        while i < self.assets.len()
            invariant
                i <= self.assets@.len(),
                images == spec_asset_counts(self.assets@, i as int).0,
                videos == spec_asset_counts(self.assets@, i as int).1,
                fonts == spec_asset_counts(self.assets@, i as int).2,
                images + videos + fonts == i,
            decreases self.assets@.len() - i,
        {
            match &self.assets[i].1 {
                Asset::Image(_) => {
                    images = images + 1;
                },
                Asset::Video(_) => {
                    videos = videos + 1;
                },
                Asset::Font(_) => {
                    fonts = fonts + 1;
                },
            }
            i = i + 1;
        }
        AssetStats { total: self.assets.len(), images, videos, fonts }
    }

    /// Clear all loaded assets from memory.
    pub fn clear(&mut self)
        ensures
            final(self).wf(),
            final(self).spec_assets().len() == 0,
            final(self).spec_base_path() == old(self).spec_base_path(),
    {
        self.assets.clear();
    }
}

impl AssetError {
    /// The error in words, for the path that was asked for.
    pub open spec fn spec_message(&self, path: Seq<char>) -> Seq<char> {
        match self {
            AssetError::ImageNotFound => "Image file not found: "@ + path,
            AssetError::VideoNotFound => "Video file not found: "@ + path,
            AssetError::FontUnreadable => "Failed to load font: "@ + path,
            AssetError::NotAnImage => "Asset is not an image"@,
            AssetError::NotAVideo => "Asset is not a video"@,
            AssetError::NotAFont => "Asset is not a font"@,
        }
    }

    /// The error in words, for the resolved path that was asked for.
    pub fn message(&self, path: &str) -> (text: String)
        ensures
            text@ == self.spec_message(path@),
    {
        match self {
            AssetError::ImageNotFound => {
                let mut text = String::from_str("Image file not found: ");
                text.append(path);
                text
            },
            AssetError::VideoNotFound => {
                let mut text = String::from_str("Video file not found: ");
                text.append(path);
                text
            },
            AssetError::FontUnreadable => {
                let mut text = String::from_str("Failed to load font: ");
                text.append(path);
                text
            },
            AssetError::NotAnImage => String::from_str("Asset is not an image"),
            AssetError::NotAVideo => String::from_str("Asset is not a video"),
            AssetError::NotAFont => String::from_str("Asset is not a font"),
        }
    }
}

/// A lookup that finds nothing: no entry has the path.
pub proof fn lemma_asset_lookup_none(assets: Seq<(String, Asset)>, path: Seq<char>, from: int)
    requires
        0 <= from,
        spec_asset_lookup(assets, path, from).is_none(),
    ensures
        forall|i: int| from <= i < assets.len() ==> (#[trigger] assets[i]).0@ != path,
    decreases assets.len() - from,
{
    if from < assets.len() {
        lemma_asset_lookup_none(assets, path, from + 1);
    }
}

/// A text begins with `/` exactly if its first byte is that of `/`.
pub proof fn lemma_first_byte(text: Seq<char>)
    ensures
        vstd::utf8::encode_utf8(text).len() > 0 <==> text.len() > 0,
        text.len() > 0 ==> (vstd::utf8::encode_utf8(text)[0] == 47u8 <==> text[0] == '/'),
{
    crate::parser::lemma_empty_bytes(text);
    if text.len() > 0 {
        vstd::utf8::encode_utf8_first_scalar(text);
        lemma_slash_scalar(text[0]);
        let bytes = vstd::utf8::encode_utf8(text);
        assert(vstd::utf8::take_first_scalar(bytes) == vstd::utf8::encode_scalar(text[0] as u32));
        assert(bytes[0] == vstd::utf8::take_first_scalar(bytes)[0]);
    }
}

/// The encoding of a character begins with the byte of `/` exactly if the
/// character is `/`.
proof fn lemma_slash_scalar(c: char)
    ensures
        vstd::utf8::encode_scalar(c as u32).len() >= 1,
        vstd::utf8::encode_scalar(c as u32)[0] == 47u8 <==> c == '/',
{
    let v = c as u32;
    vstd::utf8::char_is_scalar(c);
    assert(vstd::utf8::has_width_1_encoding(v) ==> ((v & 0x7F) as u8 == 47u8 <==> v == 47))
        by (bit_vector)
        requires
            vstd::utf8::has_width_1_encoding(v) ==> v <= 0x7F,
    ;
    assert((0xC0 | ((v >> 6) & 0x1F) as u8) != 47u8) by (bit_vector);
    assert((0xE0 | ((v >> 12) & 0x0F) as u8) != 47u8) by (bit_vector);
    assert((0xF0 | ((v >> 18) & 0x07) as u8) != 47u8) by (bit_vector);
}

/// A text ends in `/` exactly if its last byte is that of `/`.
pub proof fn lemma_last_byte(text: Seq<char>)
    ensures
        text.len() > 0 ==> vstd::utf8::encode_utf8(text).len() > 0 && (vstd::utf8::encode_utf8(
            text,
        ).last() == 47u8 <==> text.last() == '/'),
{
    crate::parser::lemma_empty_bytes(text);
    if text.len() > 0 {
        lemma_last_byte_rec(text);
    }
}

/// The last byte of a text is the last byte of its last character.
proof fn lemma_last_byte_rec(text: Seq<char>)
    requires
        text.len() > 0,
    ensures
        vstd::utf8::encode_utf8(text).len() > 0,
        vstd::utf8::encode_utf8(text).last() == 47u8 <==> text.last() == '/',
    decreases text.len(),
{
    crate::parser::lemma_empty_bytes(text);
    let bytes = vstd::utf8::encode_utf8(text);
    let head = vstd::utf8::encode_scalar(text[0] as u32);
    let rest = text.drop_first();
    assert(bytes == head + vstd::utf8::encode_utf8(rest));
    lemma_last_scalar_byte(text[0]);
    if rest.len() == 0 {
        assert(vstd::utf8::encode_utf8(rest).len() == 0);
        assert(bytes =~= head);
        assert(text.last() == text[0]);
    } else {
        lemma_last_byte_rec(rest);
        crate::parser::lemma_empty_bytes(rest);
        assert(bytes.last() == vstd::utf8::encode_utf8(rest).last());
        assert(text.last() == rest.last());
    }
}

/// The encoding of a character ends with the byte of `/` exactly if the
/// character is `/`.
proof fn lemma_last_scalar_byte(c: char)
    ensures
        vstd::utf8::encode_scalar(c as u32).len() >= 1,
        vstd::utf8::encode_scalar(c as u32).last() == 47u8 <==> c == '/',
{
    let v = c as u32;
    vstd::utf8::char_is_scalar(c);
    assert(vstd::utf8::has_width_1_encoding(v) ==> ((v & 0x7F) as u8 == 47u8 <==> v == 47))
        by (bit_vector)
        requires
            vstd::utf8::has_width_1_encoding(v) ==> v <= 0x7F,
    ;
    assert((0x80 | (v & 0x3F) as u8) != 47u8) by (bit_vector);
}

} // verus!
