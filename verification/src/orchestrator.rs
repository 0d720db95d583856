use crate::cache::CACHE_CAPACITY;
use crate::cache::VariantCache;
use crate::cache::spec_lookup;
use crate::config::Config;
use crate::errors::AppError;
use crate::remote::ImgInfo;
use crate::transform::decoded_dims;
use crate::transform::only_thumbnail;
use crate::transform::spec_jpeg_thumbnail;
use vstd::prelude::*;
use vstd::string::StringExecFns;

verus! {

/// The rendition a request selects: the stored original, or a reduced
/// thumbnail encoded as JPEG or as WebP.
#[derive(Clone, Copy, Debug, PartialEq, Eq, Structural)]
pub enum Variant {
    Original,
    ThumbnailJpeg,
    ThumbnailWebp,
}

/// Whether `n` occurs as a contiguous run inside `h`.
pub open spec fn spec_contains_seq(h: Seq<char>, n: Seq<char>) -> bool {
    exists|i: int| 0 <= i && i + n.len() <= h.len() && #[trigger] h.subrange(i, i + n.len()) == n
}

fn str_matches_at(hay: &str, needle: &str, at: usize, hay_len: usize, needle_len: usize) -> (r:
    bool)
    requires
        hay_len == hay@.len(),
        needle_len == needle@.len(),
        at + needle_len <= hay_len,
    ensures
        r == (hay@.subrange(at as int, at + needle@.len()) == needle@),
{
    let mut k: usize = 0;
    while k < needle_len
        invariant
            k <= needle_len,
            hay_len == hay@.len(),
            needle_len == needle@.len(),
            at + needle_len <= hay_len,
            forall|j: int| 0 <= j < k ==> hay@[at + j] == needle@[j],
        decreases needle_len - k,
    {
        if hay.get_char(at + k) != needle.get_char(k) {
            proof {
                assert(hay@.subrange(at as int, at + needle@.len())[k as int] == hay@[at + k]);
            }
            return false;
        }
        k = k + 1;
    }
    proof {
        assert(hay@.subrange(at as int, at + needle@.len()) =~= needle@);
    }
    true
}

/// Whether `needle` occurs, character for character, inside `hay`.
pub fn str_contains(hay: &str, needle: &str) -> (r: bool)
    ensures
        r == spec_contains_seq(hay@, needle@),
{
    let hay_len = hay.unicode_len();
    let needle_len = needle.unicode_len();
    if needle_len > hay_len {
        return false;
    }
    if needle_len == 0 {
        proof {
            assert(hay@.subrange(0, 0 + needle@.len() as int) =~= needle@);
        }
        return true;
    }
    let mut i: usize = 0;
    while i <= hay_len - needle_len
        invariant
            1 <= needle_len <= hay_len,
            hay_len == hay@.len(),
            needle_len == needle@.len(),
            forall|j: int|
                0 <= j < i ==> #[trigger] hay@.subrange(j, j + needle@.len()) != needle@,
        decreases hay_len - needle_len - i + 1,
    {
        if str_matches_at(hay, needle, i, hay_len, needle_len) {
            return true;
        }
        i = i + 1;
    }
    proof {
        assert forall|j: int| 0 <= j && j + needle@.len() <= hay@.len() implies #[trigger] hay@
            .subrange(j, j + needle@.len()) != needle@ by {
            assert(j < i);
        }
    }
    false
}

/// Content negotiation: the reduced variant is delivered as WebP exactly
/// when the declared acceptable media types mention `image/webp`.
pub open spec fn spec_accepts_webp(accept: Seq<char>) -> bool {
    spec_contains_seq(accept, "image/webp"@)
}

pub fn accepts_webp(accept: &str) -> (r: bool)
    ensures
        r == spec_accepts_webp(accept@),
{
    str_contains(accept, "image/webp")
}

/// The cache key of a reduced variant: the logical path with the variant
/// discriminator appended.
pub open spec fn spec_cache_key(path: Seq<char>, webp: bool) -> Seq<char> {
    path + "-thumb-"@ + (if webp {
        "true"@
    } else {
        "false"@
    })
}

pub fn cache_key(path: &String, webp: bool) -> (k: String)
    ensures
        k@ == spec_cache_key(path@, webp),
{
    let mut k = path.clone();
    if webp {
        k.append("-thumb-true");
    } else {
        k.append("-thumb-false");
    }
    proof {
        reveal_strlit("-thumb-true");
        reveal_strlit("-thumb-false");
        reveal_strlit("-thumb-");
        reveal_strlit("true");
        reveal_strlit("false");
        assert(k@ =~= spec_cache_key(path@, webp));
    }
    k
}

/// Law: the textual key is unambiguous. Two requests build the same key
/// only when they name the same path and choose the same variant, so the
/// concatenated form cannot collide even across different paths.
pub proof fn lemma_cache_key_unambiguous(p1: Seq<char>, v1: bool, p2: Seq<char>, v2: bool)
    requires
        spec_cache_key(p1, v1) == spec_cache_key(p2, v2),
    ensures
        p1 == p2,
        v1 == v2,
{
    reveal_strlit("-thumb-");
    reveal_strlit("true");
    reveal_strlit("false");
    let k1 = spec_cache_key(p1, v1);
    let k2 = spec_cache_key(p2, v2);
    if v1 == v2 {
        if v1 {
            assert(k1.len() == p1.len() + 11);
            assert(k2.len() == p2.len() + 11);
        } else {
            assert(k1.len() == p1.len() + 12);
            assert(k2.len() == p2.len() + 12);
        }
        assert(p1.len() == p2.len());
        assert forall|i: int| 0 <= i < p1.len() implies p1[i] == p2[i] by {
            assert(k1[i] == p1[i]);
            assert(k2[i] == p2[i]);
        }
        assert(p1 =~= p2);
    } else if v1 {
        assert(k1.len() == p1.len() + 11);
        assert(k2.len() == p2.len() + 12);
        assert(k1[(p1.len() + 6) as int] == '-');
        assert(k2[(p2.len() + 7) as int] == 'f');
        assert(p1.len() + 6 == p2.len() + 7);
        assert(false);
    } else {
        assert(k1.len() == p1.len() + 12);
        assert(k2.len() == p2.len() + 11);
        assert(k1[(p1.len() + 7) as int] == 'f');
        assert(k2[(p2.len() + 6) as int] == '-');
        assert(p1.len() + 7 == p2.len() + 6);
        assert(false);
    }
}

/// Law: for one path, different variant choices always build different
/// cache keys, so the two deliverables can never collide in the cache.
pub proof fn lemma_cache_key_injective(path: Seq<char>, v1: bool, v2: bool)
    requires
        v1 != v2,
    ensures
        spec_cache_key(path, v1) != spec_cache_key(path, v2),
{
    if spec_cache_key(path, v1) == spec_cache_key(path, v2) {
        lemma_cache_key_unambiguous(path, v1, path, v2);
    }
}

/// Whether the size hint asks for the reduced rendition.
pub open spec fn spec_wants_small(size: Option<&String>) -> bool {
    size matches Some(s) && s@ == "small"@
}

/// The rendition that a size hint and a format negotiation select.
pub open spec fn spec_variant(small: bool, webp: bool) -> Variant {
    if !small {
        Variant::Original
    } else if webp {
        Variant::ThumbnailWebp
    } else {
        Variant::ThumbnailJpeg
    }
}

/// Everything the request decides before any outside call. A pass-through
/// request never touches the cache; a reduced request carries the
/// negotiated format and the cache key it will be served under.
#[derive(Debug)]
pub enum RequestPlan {
    PassThrough { full_path: String },
    Reduced { full_path: String, webp: bool, key: String },
}

/// The rendition a finished plan delivers.
pub fn chosen_variant(plan: &RequestPlan) -> (v: Variant)
    ensures
        match plan {
            RequestPlan::PassThrough { .. } => v == spec_variant(false, false),
            RequestPlan::Reduced { webp, .. } => v == spec_variant(true, *webp),
        },
{
    match plan {
        RequestPlan::PassThrough { .. } => Variant::Original,
        RequestPlan::Reduced { webp, .. } => {
            if *webp {
                Variant::ThumbnailWebp
            } else {
                Variant::ThumbnailJpeg
            }
        },
    }
}

/// The first steps of the per-request state machine: join the configured
/// base directory with the path parameter, fail with `BadPath` when the
/// parameter is absent, read the size hint, and negotiate the format.
pub fn plan_request(
    img_path: Option<String>,
    size: Option<&String>,
    accept: Option<&String>,
    conf: &Config,
) -> (r: Result<RequestPlan, AppError>)
    ensures
        match r {
            Err(e) => img_path is None && e == AppError::BadPath,
            Ok(plan) => img_path matches Some(p) && match plan {
                RequestPlan::PassThrough { full_path } => {
                    &&& full_path@ == conf.alist_dir@ + "/"@ + p@
                    &&& !spec_wants_small(size)
                },
                RequestPlan::Reduced { full_path, webp, key } => {
                    &&& full_path@ == conf.alist_dir@ + "/"@ + p@
                    &&& spec_wants_small(size)
                    &&& webp == (accept matches Some(a) && spec_accepts_webp(a@))
                    &&& key@ == spec_cache_key(full_path@, webp)
                },
            },
        },
{
    let p = match img_path {
        Some(p) => p,
        None => {
            return Err(AppError::BadPath);
        },
    };
    let mut full_path = conf.alist_dir.clone();
    full_path.append("/");
    full_path.append(p.as_str());
    proof {
        assert(full_path@ =~= conf.alist_dir@ + "/"@ + p@);
    }
    let small = match size {
        Some(s) => s.eq(&String::from_str("small")),
        None => false,
    };
    if !small {
        return Ok(RequestPlan::PassThrough { full_path });
    }
    let webp = match accept {
        Some(a) => accepts_webp(a.as_str()),
        None => false,
    };
    let key = cache_key(&full_path, webp);
    Ok(RequestPlan::Reduced { full_path, webp, key })
}

/// What a finished request answers with.
#[derive(Debug)]
pub enum Outcome {
    /// A reduced variant's bytes, tagged as WebP or JPEG.
    Bytes { body: Vec<u8>, webp: bool },
    /// A temporary redirect to the backend's direct download location.
    RedirectTo { url: String },
}

/// The content type a reduced response is tagged with.
pub open spec fn spec_content_type(webp: bool) -> Seq<char> {
    if webp {
        "image/webp"@
    } else {
        "image/jpeg"@
    }
}

pub fn content_type(webp: bool) -> (r: String)
    ensures
        r@ == spec_content_type(webp),
{
    if webp {
        "image/webp".to_owned()
    } else {
        "image/jpeg".to_owned()
    }
}

/// The cache-checked state: a hit answers at once with the stored bytes
/// under the negotiated content type; a miss sends the request on to the
/// fetch and transform states.
#[derive(Debug)]
pub enum CacheDecision {
    Hit { outcome: Outcome },
    Miss,
}

pub fn consult_cache(cache: &VariantCache, key: &String, webp: bool) -> (d: CacheDecision)
    ensures
        match d {
            CacheDecision::Hit { outcome } => outcome matches Outcome::Bytes { body, webp: w }
                && spec_lookup(cache.contents(), key@) == Some(body@) && w == webp,
            CacheDecision::Miss => spec_lookup(cache.contents(), key@) is None,
        },
{
    match cache.get(key) {
        Some(v) => CacheDecision::Hit { outcome: Outcome::Bytes { body: v, webp } },
        None => CacheDecision::Miss,
    }
}

/// The miss path for the JPEG variant, entered once the gateway handed
/// the source bytes back: transform them, store the completed result
/// under `key`, and answer with it. A failed transform stores nothing.
pub fn complete_jpeg_miss(cache: &mut VariantCache, key: &String, fetched: &Vec<u8>) -> (r: Result<
    Outcome,
    AppError,
>)
    ensures
        match r {
            Ok(o) => {
                &&& spec_jpeg_thumbnail(fetched@) matches Some(b) && o matches Outcome::Bytes {
                    body,
                    webp,
                } && body@ == b && !webp && cache_contents_updated(
                    old(cache).contents(),
                    final(cache).contents(),
                    key@,
                    b,
                )
            },
            Err(e) => {
                &&& final(cache).contents() == old(cache).contents()
                &&& spec_jpeg_thumbnail(fetched@) is None
                &&& (decoded_dims(fetched@) is None <==> e == AppError::UnsupportedImage)
                &&& (decoded_dims(fetched@) is Some <==> e
                    == AppError::EncodeUnsupportedColorMode)
            },
        },
{
    match only_thumbnail(fetched.as_slice()) {
        Ok(body) => {
            let stored = body.clone();
            proof {
                assert(stored@ =~= body@);
            }
            cache.set(key.clone(), stored);
            Ok(Outcome::Bytes { body, webp: false })
        },
        Err(e) => Err(e),
    }
}

/// How a completed store changes the cache: no foreign key appears, and
/// below the capacity bound nothing is evicted and the finished pair is
/// resident afterwards.
pub open spec fn cache_contents_updated(
    pre: Map<Seq<char>, Seq<u8>>,
    post: Map<Seq<char>, Seq<u8>>,
    key: Seq<char>,
    value: Seq<u8>,
) -> bool {
    &&& post.dom().subset_of(pre.dom().insert(key))
    &&& (pre.dom().len() < CACHE_CAPACITY as int || pre.dom().contains(key)
        ==> post == pre.insert(key, value))
}

/// The miss path for the WebP variant, entered once the prepared planes
/// came back from the encoder as finished bytes: store the completed
/// result under `key` and answer with it.
pub fn complete_webp_miss(cache: &mut VariantCache, key: &String, encoded: Vec<u8>) -> (o: Outcome)
    ensures
        o matches Outcome::Bytes { body, webp } && body@ == encoded@ && webp,
        cache_contents_updated(old(cache).contents(), final(cache).contents(), key@, encoded@),
{
    let stored = encoded.clone();
    proof {
        assert(stored@ =~= encoded@);
    }
    cache.set(key.clone(), stored);
    Outcome::Bytes { body: encoded, webp: true }
}

/// Law: a reduced request served on a miss is a hit right after. Once the
/// completed transform was stored below the capacity bound, a second
/// identical request finds exactly those bytes under the same key.
pub proof fn lemma_miss_then_hit(
    pre: Map<Seq<char>, Seq<u8>>,
    post: Map<Seq<char>, Seq<u8>>,
    key: Seq<char>,
    value: Seq<u8>,
)
    requires
        cache_contents_updated(pre, post, key, value),
        pre.dom().len() < CACHE_CAPACITY as int,
    ensures
        spec_lookup(post, key) == Some(value),
{
}

/// The pass-through branch: no cache interaction, a temporary redirect to
/// the direct download location the backend reported.
pub fn redirect_outcome(info: ImgInfo) -> (o: Outcome)
    ensures
        o matches Outcome::RedirectTo { url } && url == info.raw_url,
{
    Outcome::RedirectTo { url: info.raw_url }
}

} // verus!
