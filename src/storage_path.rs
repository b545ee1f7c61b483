use vstd::prelude::*;

verus! {

/// Prefix of every image artifact's path in object storage, in front of the
/// image id.
pub open spec fn image_path_prefix() -> Seq<char> {
    "s3://boot-images/"@
}

/// `k` is the position of the first `/` in `s`.
pub open spec fn is_first_slash(s: Seq<char>, k: int) -> bool {
    0 <= k < s.len() && s[k] == '/' && forall|j: int| 0 <= j < k ==> s[j] != '/'
}

/// Position of the first `/` in `s`, when it has one.
pub open spec fn first_slash(s: Seq<char>) -> int {
    choose|k: int| is_first_slash(s, k)
}

/// `p` starts with the image prefix.
pub open spec fn has_image_prefix(p: Seq<char>) -> bool {
    p.len() >= image_path_prefix().len() && p.subrange(0, image_path_prefix().len() as int)
        == image_path_prefix()
}

/// What follows the image prefix.
pub open spec fn after_prefix(p: Seq<char>) -> Seq<char> {
    p.subrange(image_path_prefix().len() as int, p.len() as int)
}

/// Why `p` is not of the shape `s3://boot-images/<id>/...` with a non-empty
/// `<id>`, if it is not.
pub open spec fn image_path_error(p: Seq<char>) -> Option<StoragePathError> {
    if !has_image_prefix(p) {
        Some(StoragePathError::MissingPrefix)
    } else if !after_prefix(p).contains('/') {
        Some(StoragePathError::MissingSeparator)
    } else if after_prefix(p)[0] == '/' {
        Some(StoragePathError::EmptyImageId)
    } else {
        None
    }
}

/// The image id that an artifact path `s3://boot-images/<id>/<artifact>`
/// names: the first segment after the image prefix.
pub open spec fn image_id_of_path(p: Seq<char>) -> Option<Seq<char>> {
    if image_path_error(p) is None {
        Some(after_prefix(p).subrange(0, first_slash(after_prefix(p))))
    } else {
        None
    }
}

/// The artifact part of an image path: what follows the image id's `/`.
pub open spec fn artifact_of_path(p: Seq<char>) -> Seq<char> {
    after_prefix(p).subrange(first_slash(after_prefix(p)) + 1, after_prefix(p).len() as int)
}

/// A well-formed image id: not empty, without `/`.
pub open spec fn is_image_id(x: Seq<char>) -> bool {
    x.len() > 0 && !x.contains('/')
}

/// Path of the artifact named `artifact` of image `x`.
pub open spec fn artifact_path(x: Seq<char>, artifact: Seq<char>) -> Seq<char> {
    image_path_prefix() + x + seq!['/'] + artifact
}

/// Why `p` is not the path of artifact `artifact` of some image, if it is not.
pub open spec fn boot_set_path_error(p: Seq<char>, artifact: Seq<char>) -> Option<StoragePathError> {
    if image_path_error(p) is Some {
        image_path_error(p)
    } else if artifact_of_path(p) != artifact {
        Some(StoragePathError::WrongArtifact)
    } else {
        None
    }
}

/// Relies on str::strip_prefix: `Some` of the rest exactly when `s` starts with `p`.
#[verifier::external_body]
fn strip_prefix<'a>(s: &'a str, p: &str) -> (r: Option<&'a str>)
    ensures
        r is Some <==> (s@.len() >= p@.len() && s@.subrange(0, p@.len() as int) == p@),
        r is Some ==> r->0@ == s@.subrange(p@.len() as int, s@.len() as int),
{
    s.strip_prefix(p)
}

/// Relies on str::split_once: splits at the first occurrence of `c`, `None`
/// when there is none.
#[verifier::external_body]
fn split_once<'a>(s: &'a str, c: char) -> (r: Option<(&'a str, &'a str)>)
    ensures
        r is None <==> !s@.contains(c),
        r is Some ==> ({
            let (head, tail) = r->0;
            s@ == head@ + seq![c] + tail@ && !head@.contains(c)
        }),
{
    s.split_once(c)
}

/// Why a storage path names no image.
#[derive(Debug, Clone, Copy, PartialEq, Eq, Structural)]
pub enum StoragePathError {
    /// The path is not under the image prefix.
    MissingPrefix,
    /// No `/` follows the image id.
    MissingSeparator,
    /// The image id is empty.
    EmptyImageId,
    /// What follows the image id is not the expected artifact.
    WrongArtifact,
}

proof fn lemma_first_slash_unique(s: Seq<char>, k: int, m: int)
    requires
        is_first_slash(s, k),
        is_first_slash(s, m),
    ensures
        k == m,
{
    if k < m {
        assert(s[k] != '/');
    } else if m < k {
        assert(s[m] != '/');
    }
}

/// An artifact path of a well-formed image id is well formed, and names that
/// image and that artifact.
pub proof fn lemma_artifact_path_parts(x: Seq<char>, artifact: Seq<char>)
    requires
        is_image_id(x),
    ensures
        boot_set_path_error(artifact_path(x, artifact), artifact) is None,
        image_id_of_path(artifact_path(x, artifact)) == Some(x),
        artifact_of_path(artifact_path(x, artifact)) == artifact,
{
    let p = artifact_path(x, artifact);
    let pl = image_path_prefix().len() as int;
    assert(p.subrange(0, pl) =~= image_path_prefix());
    let rest = after_prefix(p);
    assert(rest =~= x + seq!['/'] + artifact);
    let k = x.len() as int;
    assert(rest[k] == '/');
    assert forall|j: int| 0 <= j < k implies rest[j] != '/' by {
        assert(rest[j] == x[j]);
        if x[j] == '/' {
            assert(x.contains('/'));
        }
    }
    assert(is_first_slash(rest, k));
    assert(rest.contains('/'));
    assert(rest[0] == x[0]);
    if x[0] == '/' {
        assert(x.contains('/'));
    }
    lemma_first_slash_unique(rest, k, first_slash(rest));
    assert(rest.subrange(0, k) =~= x);
    assert(rest.subrange(k + 1, rest.len() as int) =~= artifact);
}

/// Splits an artifact path into its image id and what follows the id's `/`.
fn split_image_path<'a>(path: &'a str) -> (r: Result<(&'a str, &'a str), StoragePathError>)
    ensures
        r is Err <==> image_path_error(path@) is Some,
        r is Err ==> image_path_error(path@) == Some(r->Err_0),
        r is Ok ==> ({
            let (id, rest) = r->Ok_0;
            Some(id@) == image_id_of_path(path@) && rest@ == artifact_of_path(path@) && is_image_id(id@)
                && path@ == artifact_path(id@, rest@)
        }),
{
    let prefix = "s3://boot-images/";
    proof {
        reveal_strlit("s3://boot-images/");
    }
    assert(prefix@ == image_path_prefix());
    match strip_prefix(path, prefix) {
        None => Err(StoragePathError::MissingPrefix),
        Some(rest) => {
            assert(rest@ == after_prefix(path@));
            match split_once(rest, '/') {
                None => Err(StoragePathError::MissingSeparator),
                Some((id, tail)) => {
                    let ghost k = id@.len() as int;
                    assert(rest@[k] == '/');
                    assert(rest@.contains('/'));
                    assert forall|j: int| 0 <= j < k implies rest@[j] != '/' by {
                        assert(rest@[j] == id@[j]);
                        if id@[j] == '/' {
                            assert(id@.contains('/'));
                        }
                    }
                    assert(is_first_slash(rest@, k));
                    proof {
                        lemma_first_slash_unique(rest@, k, first_slash(rest@));
                    }
                    assert(rest@.subrange(0, k) =~= id@);
                    assert(rest@.subrange(k + 1, rest@.len() as int) =~= tail@);
                    if id.is_empty() {
                        assert(rest@[0] == '/');
                        Err(StoragePathError::EmptyImageId)
                    } else {
                        assert(rest@[0] == id@[0]);
                        assert(path@ =~= artifact_path(id@, tail@));
                        Ok((id, tail))
                    }
                },
            }
        },
    }
}

/// Recovers the image id from an artifact path such as
/// `s3://boot-images/<id>/kernel`, whatever the artifact.
pub fn parse_image_id(path: &str) -> (r: Result<String, StoragePathError>)
    ensures
        r is Ok <==> image_id_of_path(path@) is Some,
        r is Ok ==> r->Ok_0@ == image_id_of_path(path@)->0,
        r is Err ==> image_path_error(path@) == Some(r->Err_0),
{
    match split_image_path(path) {
        Ok((id, _)) => Ok(id.to_owned()),
        Err(e) => Err(e),
    }
}

/// Recovers the image id from the path of a boot set whose artifact is named
/// `artifact`: `Ok(x)` exactly when the path is
/// `s3://boot-images/<x>/<artifact>` with `x` not empty and without `/`.
pub fn parse_boot_set_path(path: &str, artifact: &str) -> (r: Result<String, StoragePathError>)
    ensures
        r is Ok <==> exists|x: Seq<char>| is_image_id(x) && path@ == artifact_path(x, artifact@),
        r is Ok ==> is_image_id(r->Ok_0@) && path@ == artifact_path(r->Ok_0@, artifact@),
        r is Ok ==> image_id_of_path(path@) == Some(r->Ok_0@),
        r is Ok <==> boot_set_path_error(path@, artifact@) is None,
        r is Err ==> boot_set_path_error(path@, artifact@) == Some(r->Err_0),
{
    let r = match split_image_path(path) {
        Err(e) => Err(e),
        Ok((id, rest)) => {
            if rest.to_owned() == artifact.to_owned() {
                Ok(id.to_owned())
            } else {
                Err(StoragePathError::WrongArtifact)
            }
        },
    };
    proof {
        if r is Err {
            assert forall|x: Seq<char>| !(is_image_id(x) && path@ == artifact_path(x, artifact@)) by {
                if is_image_id(x) && path@ == artifact_path(x, artifact@) {
                    lemma_artifact_path_parts(x, artifact@);
                }
            }
        }
    }
    r
}

} // verus!
