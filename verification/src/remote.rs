use crate::errors::AppError;
use vstd::prelude::*;
use vstd::string::StringExecFns;
use vstd::string::StrSliceExecFns;

verus! {

/// Metadata the backend reports for one stored file: its name and the
/// direct download location of its raw bytes. Ephemeral: consumed at once
/// to redirect or to fetch.
#[derive(Debug)]
pub struct ImgInfo {
    pub name: String,
    pub raw_url: String,
}

/// The typed envelope of the backend's metadata answer: a numeric status
/// code and the two fields a complete answer must carry. A missing code
/// field is handed in as its default.
#[derive(Debug)]
pub struct InfoEnvelope {
    pub code: i64,
    pub name: Option<String>,
    pub raw_url: Option<String>,
}

/// The status code with which the backend reports success.
pub const REMOTE_OK: i64 = 200;

/// A metadata answer resolves to file metadata exactly when its status
/// code reports success and both required fields are present; any other
/// answer fails the request with `RemoteNotFound`.
pub fn validate_info(env: InfoEnvelope) -> (r: Result<ImgInfo, AppError>)
    ensures
        match r {
            Ok(info) => {
                &&& env.code == REMOTE_OK
                &&& env.name matches Some(n) && info.name == n
                &&& env.raw_url matches Some(u) && info.raw_url == u
            },
            Err(e) => {
                &&& e == AppError::RemoteNotFound
                &&& (env.code != REMOTE_OK || env.name is None || env.raw_url is None)
            },
        },
{
    if env.code != REMOTE_OK {
        return Err(AppError::RemoteNotFound);
    }
    let name = match env.name {
        Some(n) => n,
        None => {
            return Err(AppError::RemoteNotFound);
        },
    };
    let raw_url = match env.raw_url {
        Some(u) => u,
        None => {
            return Err(AppError::RemoteNotFound);
        },
    };
    Ok(ImgInfo { name, raw_url })
}

/// The characters after the last dot of `s`; all of `s` when it has no
/// dot, and empty when it ends in one.
pub open spec fn spec_extension(s: Seq<char>) -> Seq<char>
    decreases s.len(),
{
    if s.len() == 0 {
        s
    } else if s.last() == '.' {
        Seq::empty()
    } else {
        spec_extension(s.drop_last()).push(s.last())
    }
}

proof fn lemma_extension_no_dot(s: Seq<char>)
    requires
        forall|k: int| 0 <= k < s.len() ==> s[k] != '.',
    ensures
        spec_extension(s) == s,
    decreases s.len(),
{
    if s.len() == 0 {
        assert(spec_extension(s) =~= s);
    } else {
        lemma_extension_no_dot(s.drop_last());
        assert(spec_extension(s) =~= s.drop_last().push(s.last()));
        assert(s.drop_last().push(s.last()) =~= s);
    }
}

proof fn lemma_extension_after_dot(s: Seq<char>, i: int)
    requires
        0 <= i < s.len(),
        s[i] == '.',
        forall|k: int| i < k < s.len() ==> s[k] != '.',
    ensures
        spec_extension(s) == s.subrange(i + 1, s.len() as int),
    decreases s.len(),
{
    if i == s.len() - 1 {
        assert(s.last() == '.');
        assert(s.subrange(i + 1, s.len() as int) =~= Seq::empty());
    } else {
        lemma_extension_after_dot(s.drop_last(), i);
        assert(s.drop_last().subrange(i + 1, s.drop_last().len() as int).push(s.last()) =~= s.subrange(
            i + 1,
            s.len() as int,
        ));
    }
}

/// The file extension a name carries: the text after its last dot, the
/// whole name when it has none.
pub fn extension_of(name: &str) -> (r: String)
    ensures
        r@ == spec_extension(name@),
{
    let len = name.unicode_len();
    let mut i = len;
    while i > 0 && name.get_char(i - 1) != '.'
        invariant
            i <= len,
            len == name@.len(),
            forall|k: int| i <= k < len ==> name@[k] != '.',
        decreases i,
    {
        i = i - 1;
    }
    let ext = name.substring_char(i, len);
    proof {
        if i == 0 {
            lemma_extension_no_dot(name@);
        } else {
            lemma_extension_after_dot(name@, i as int - 1);
        }
    }
    ext.to_owned()
}

/// The destination path of an upload: the base directory, the year and
/// the timestamp as path segments, then the uploaded file's extension.
pub fn build_upload_path(dir: &String, year: &String, timestamp: &String, file_name: &str) -> (r:
    String)
    ensures
        r@ == dir@ + "/"@ + year@ + "/"@ + timestamp@ + "."@ + spec_extension(file_name@),
{
    let ext = extension_of(file_name);
    let mut out = dir.clone();
    out.append("/");
    out.append(year.as_str());
    out.append("/");
    out.append(timestamp.as_str());
    out.append(".");
    out.append(ext.as_str());
    proof {
        assert(out@ =~= dir@ + "/"@ + year@ + "/"@ + timestamp@ + "."@ + spec_extension(
            file_name@,
        ));
    }
    out
}

} // verus!
