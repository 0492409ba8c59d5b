//! The one-slot cache of the preview image, its staleness rule, the
//! addresses derived from a stream id and the size of the image box.

use vstd::prelude::*;
use vstd::string::StringExecFns;

verus! {

/// Why no preview image could be had. Both kinds are handled alike: the
/// cache stays as it was.
#[derive(Clone, Copy, Debug, PartialEq, Eq)]
pub enum FetchError {
    /// The image bytes could not be fetched.
    Fetch,
    /// The bytes fetched are not an image that can be decoded.
    Decode,
}

/// At most one image handle, with the catalog position it was fetched for.
pub struct PreviewCache<H> {
    /// The image ready for the renderer.
    pub image: Option<H>,
    /// The catalog position that `image` belongs to.
    pub last_fetched: Option<usize>,
    /// Set by a resize until the next image is stored: the image on hand,
    /// if any, was sized for another terminal geometry.
    pub invalidated: bool,
}

impl<H> PreviewCache<H> {
    /// The cache before anything was fetched.
    pub open spec fn spec_empty() -> PreviewCache<H> {
        PreviewCache { image: None, last_fetched: None, invalidated: false }
    }

    /// The cache after a resize: cleared, and stale whatever is selected.
    pub open spec fn spec_invalidated() -> PreviewCache<H> {
        PreviewCache { image: None, last_fetched: None, invalidated: true }
    }

    /// The cache after `image` was fetched for catalog position `index`.
    pub open spec fn spec_holding(index: usize, image: H) -> PreviewCache<H> {
        PreviewCache { image: Some(image), last_fetched: Some(index), invalidated: false }
    }

    /// The cache is stale for the catalog position `current` if it was
    /// fetched for another position, or a resize has cleared it since.
    pub open spec fn spec_needs_refresh(&self, current: Option<usize>) -> bool {
        self.invalidated || self.last_fetched != current
    }

    #[verifier::when_used_as_spec(spec_empty)]
    pub fn empty() -> (cache: PreviewCache<H>)
        ensures
            cache == Self::spec_empty(),
    {
        PreviewCache { image: None, last_fetched: None, invalidated: false }
    }

    #[verifier::when_used_as_spec(spec_needs_refresh)]
    pub fn needs_refresh(&self, current: Option<usize>) -> (stale: bool)
        ensures
            stale == self.spec_needs_refresh(current),
    {
        if self.invalidated {
            return true;
        }
        match (self.last_fetched, current) {
            (Some(a), Some(b)) => a != b,
            (None, None) => false,
            _ => true,
        }
    }

    /// Clears the cache after a resize.
    pub fn invalidate(&mut self)
        ensures
            *final(self) == Self::spec_invalidated(),
    {
        self.image = None;
        self.last_fetched = None;
        self.invalidated = true;
    }

    /// Replaces the cache with `image`, fetched for catalog position `index`.
    pub fn store(&mut self, index: usize, image: H)
        ensures
            *final(self) == Self::spec_holding(index, image),
    {
        self.image = Some(image);
        self.last_fetched = Some(index);
        self.invalidated = false;
    }
}

/// A cleared cache is stale whatever is selected, an image stored for a
/// position is fresh for exactly that position, and staleness is decided by
/// the position and the resize mark alone.
pub proof fn lemma_staleness<H>(index: usize, image: H, current: Option<usize>)
    ensures
        PreviewCache::<H>::spec_invalidated().needs_refresh(current),
        PreviewCache::spec_holding(index, image).needs_refresh(current) <==> current != Some(index),
        PreviewCache::<H>::spec_empty().needs_refresh(current) <==> current is Some,
{
}

/// Address of the thumbnail image of the stream `id`.
pub open spec fn spec_thumbnail_url(id: Seq<char>) -> Seq<char> {
    "https://img.youtube.com/vi/"@ + id + "/hqdefault.jpg"@
}

pub fn thumbnail_url(id: &str) -> (url: String)
    ensures
        url@ == spec_thumbnail_url(id@),
{
    let mut url = String::from_str("https://img.youtube.com/vi/");
    url.append(id);
    url.append("/hqdefault.jpg");
    url
}

/// Address that the player is pointed at for the stream `id`.
pub open spec fn spec_watch_url(id: Seq<char>) -> Seq<char> {
    "https://www.youtube.com/watch?v="@ + id
}

pub fn watch_url(id: &str) -> (url: String)
    ensures
        url@ == spec_watch_url(id@),
{
    let mut url = String::from_str("https://www.youtube.com/watch?v=");
    url.append(id);
    url
}

/// Height, in terminal cells, of the box that the preview image is fitted
/// into: three eighths of the available width, rounded down, and never more
/// than the available height.
pub open spec fn spec_preview_height(width: int, height: int) -> int {
    if width * 3 / 8 <= height {
        width * 3 / 8
    } else {
        height
    }
}

pub fn preview_height(width: u16, height: u16) -> (rows: u16)
    ensures
        rows as int == spec_preview_height(width as int, height as int),
        rows <= height,
{
    let wide: u32 = width as u32;
    let scaled: u32 = wide * 3 / 8;
    if scaled <= height as u32 {
        scaled as u16
    } else {
        height
    }
}

} // verus!
