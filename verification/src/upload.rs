//! The local checks and endpoint of a file upload.

use vstd::prelude::*;
use crate::connect::Connection;
use crate::error::{CommonError, ConfigError, UploadError};
use crate::strutil::trim_spec;

verus! {

/// The last position of `c` in `s`, or -1.
pub open spec fn last_index_of(s: Seq<char>, c: char) -> int
    decreases s.len(),
{
    if s.len() == 0 {
        -1
    } else if s[s.len() - 1] == c {
        s.len() - 1
    } else {
        last_index_of(s.take(s.len() - 1), c)
    }
}

proof fn lemma_last_index_of(s: Seq<char>, c: char)
    ensures
        last_index_of(s, c) == -1 || 0 <= last_index_of(s, c) < s.len(),
        last_index_of(s, c) >= 0 ==> s[last_index_of(s, c)] == c,
        forall|j: int| last_index_of(s, c) < j < s.len() ==> s[j] != c,
    decreases s.len(),
{
    if s.len() > 0 && s[s.len() - 1] != c {
        lemma_last_index_of(s.take(s.len() - 1), c);
        assert forall|j: int| last_index_of(s, c) < j < s.len() implies s[j] != c by {
            if j < s.len() - 1 {
                assert(s.take(s.len() - 1)[j] == s[j]);
            }
        }
        if last_index_of(s, c) >= 0 {
            assert(s.take(s.len() - 1)[last_index_of(s, c)] == s[last_index_of(s, c)]);
        }
    }
}

/// The file name of a path: everything after the last `'/'`.
pub open spec fn file_name_spec(path: Seq<char>) -> Seq<char> {
    path.skip(last_index_of(path, '/') + 1)
}

/// The extension of a path, as `Path::extension` sees it: the part of the
/// file name after its last `'.'`, unless the only `'.'` leads the name.
pub open spec fn extension_spec(path: Seq<char>) -> Option<Seq<char>> {
    let name = file_name_spec(path);
    let dot = last_index_of(name, '.');
    if dot <= 0 {
        None
    } else {
        Some(name.skip(dot + 1))
    }
}

/// Computes `extension_spec`.
pub fn extension_of(path: &str) -> (r: Option<String>)
    ensures
        extension_spec(path@) is None ==> r is None,
        extension_spec(path@) matches Some(e) ==> (r matches Some(x) && x@ == e),
{
    let len: usize = path.unicode_len();
    proof {
        lemma_last_index_of(path@, '/');
    }
    // One past the last '/' seen so far; 0 while none was.
    let mut name_start: usize = 0;
    let mut i: usize = 0;
    while i < len
        invariant
            i <= len,
            len == path@.len(),
            name_start <= i,
            name_start == 0 ==> last_index_of(path@.take(i as int), '/') == -1,
            name_start > 0 ==> last_index_of(path@.take(i as int), '/') == name_start - 1,
        decreases len - i,
    {
        proof {
            assert(path@.take(i + 1).take(i as int) =~= path@.take(i as int));
            assert(path@.take(i + 1)[i as int] == path@[i as int]);
        }
        if path.get_char(i) == '/' {
            name_start = i + 1;
        }
        i = i + 1;
    }
    assert(path@.take(len as int) =~= path@);
    let ghost name = file_name_spec(path@);
    assert(name =~= path@.skip(name_start as int));
    proof {
        lemma_last_index_of(name, '.');
    }
    // One past the last '.' seen in the file name so far; 0 while none was.
    let mut dot1: usize = 0;
    let mut j: usize = name_start;
    while j < len
        invariant
            name_start <= j <= len,
            len == path@.len(),
            name == path@.skip(name_start as int),
            name.len() == len - name_start,
            dot1 == 0 ==> last_index_of(name.take(j - name_start), '.') == -1,
            dot1 > 0 ==> (name_start < dot1 <= j && last_index_of(name.take(j - name_start), '.')
                == dot1 - 1 - name_start),
        decreases len - j,
    {
        proof {
            assert(name.take(j - name_start + 1).take(j - name_start) =~= name.take(
                j - name_start,
            ));
            assert(name.take(j - name_start + 1)[j - name_start] == name[j - name_start]);
            assert(name[j - name_start] == path@[j as int]);
        }
        if path.get_char(j) == '.' {
            dot1 = j + 1;
        }
        j = j + 1;
    }
    assert(name.take(len - name_start) =~= name);
    if dot1 == 0 || dot1 == name_start + 1 {
        return None;
    }
    let ext = path.substring_char(dot1, len);
    assert(ext@ =~= name.skip(dot1 - name_start));
    Some(ext.to_owned())
}

/// The relative upload endpoint for a file, after the local checks the
/// transfer itself cannot make: the path must be non-blank and name an
/// existing file with an extension, and the connection must carry a default
/// subscription to ingest into.  The caller performs the actual transfer.
pub fn execute_upload(connection: &Connection, schema_str: &str, path_str: &str, path_exists: bool)
    -> (r: Result<String, UploadError>)
    ensures
        trim_spec(path_str@).len() == 0 ==> (r matches Err(e) && e matches UploadError::Common(
            CommonError::EmptyArgument(m),
        ) && m@ == "path"@),
        trim_spec(path_str@).len() > 0 && !path_exists ==> (r matches Err(e) && e
            matches UploadError::Common(CommonError::FileNotFound(m)) && m@ == path_str@),
        trim_spec(path_str@).len() > 0 && path_exists && extension_spec(path_str@) is None ==> (
            r matches Err(e) && e matches UploadError::UnsupportedFileExtension(m) && m@
                == Seq::<char>::empty()
        ),
        trim_spec(path_str@).len() > 0 && path_exists && extension_spec(path_str@) is Some
            && crate::connect::resolved_subscription_spec(*connection) is None ==> (
            r matches Err(e) && e == UploadError::Config(ConfigError::NoDefaultSubscription)),
        (trim_spec(path_str@).len() > 0 && path_exists) ==> (extension_spec(path_str@)
            matches Some(ext) ==> (crate::connect::resolved_subscription_spec(*connection)
            matches Some(sub) ==> (r matches Ok(url) && url@
                == "inflow/"@ + sub + "/"@ + schema_str@ + "/"@ + ext))),
{
    let trimmed = crate::strutil::trim_str(path_str);
    if trimmed.as_str().unicode_len() == 0 {
        return Err(UploadError::Common(CommonError::EmptyArgument("path".to_owned())));
    }
    if !path_exists {
        return Err(UploadError::Common(CommonError::FileNotFound(path_str.to_owned())));
    }
    let ext = match extension_of(path_str) {
        Some(e) => e,
        None => {
            return Err(UploadError::UnsupportedFileExtension(String::new()));
        },
    };
    let sub = match connection.default_subscription() {
        Some(s) => s,
        None => {
            return Err(UploadError::Config(ConfigError::NoDefaultSubscription));
        },
    };
    let mut url = String::new();
    url.append("inflow/");
    url.append(sub.as_str());
    url.append("/");
    url.append(schema_str);
    url.append("/");
    url.append(ext.as_str());
    Ok(url)
}

} // verus!
