//! The file each profile keeps its arrangement in.
use sha2::Digest;
use vstd::prelude::*;
use vstd::utf8::encode_utf8;
use crate::project_icon::{AuthState, WorkspaceScope};
use crate::text::{join2, join3};

verus! {

/// The SHA-256 digest of some bytes.
pub uninterp spec fn sha256(bytes: Seq<u8>) -> Seq<u8>;

/// `Digest::digest` of `sha2`'s `Sha256`: the 32 bytes are a function of the
/// input.
#[verifier::external_body]
fn sha256_digest(bytes: &[u8]) -> (r: Vec<u8>)
    ensures
        r@ == sha256(bytes@),
        r@.len() == 32,
{
    sha2::Sha256::digest(bytes).to_vec()
}

/// One hexadecimal digit, in lower case.
pub open spec fn hex_digit(n: int) -> char {
    if n < 10 {
        (('0' as int) + n) as char
    } else {
        (('a' as int) + (n - 10)) as char
    }
}

/// Bytes as hexadecimal digits, two for each.
pub open spec fn hex_text(bytes: Seq<u8>) -> Seq<char>
    decreases bytes.len(),
{
    if bytes.len() == 0 {
        Seq::empty()
    } else {
        hex_text(bytes.drop_last()).push(hex_digit(bytes.last() as int / 16)).push(
            hex_digit(bytes.last() as int % 16),
        )
    }
}

fn hex_char(n: u8) -> (r: char)
    requires
        n < 16,
    ensures
        r == hex_digit(n as int),
{
    if n < 10 {
        (48u8 + n) as char
    } else {
        (97u8 + (n - 10)) as char
    }
}

/// Bytes as hexadecimal digits.
pub fn hex(bytes: &Vec<u8>) -> (r: String)
    ensures
        r@ == hex_text(bytes@),
{
    let mut out: String = String::new();
    let mut i: usize = 0;
    proof {
        assert(bytes@.take(0) =~= Seq::<u8>::empty());
        assert(out@ =~= Seq::<char>::empty());
    }
    while i < bytes.len()
        invariant
            i <= bytes@.len(),
            out@ == hex_text(bytes@.take(i as int)),
        decreases bytes@.len() - i,
    {
        proof {
            let front = bytes@.take(i + 1);
            assert(front.drop_last() =~= bytes@.take(i as int));
            assert(front.last() == bytes@[i as int]);
        }
        let byte: u8 = bytes[i];
        out.push(hex_char(byte / 16));
        out.push(hex_char(byte % 16));
        i += 1;
    }
    proof {
        assert(bytes@.take(bytes@.len() as int) =~= bytes@);
    }
    out
}

/// The identity of a profile whose arrangement is kept apart: a synced one by
/// its user and organization, the development one as a whole.
pub open spec fn identity(scope: Option<WorkspaceScope>, auth: Option<AuthState>) -> Option<
    Seq<char>,
> {
    match (scope, auth) {
        (Some(WorkspaceScope::Synced), Some(AuthState::SignedIn { user_id, org_id })) => Some(
            "synced:"@ + user_id@ + ":"@ + (match org_id {
                Some(org) => org@,
                None => Seq::empty(),
            }),
        ),
        (Some(WorkspaceScope::Development), _) => Some("development"@),
        _ => None,
    }
}

/// The name of a profile's file, from the digest of its identity.
pub open spec fn file_name(digest: Option<Seq<u8>>) -> Seq<char> {
    match digest {
        Some(digest) => "workspace-layout-"@ + hex_text(digest) + ".json"@,
        None => "workspace-layout.json"@,
    }
}

/// The name of the file for a digest.
pub fn name_for_digest(digest: Option<Vec<u8>>) -> (r: String)
    ensures
        r@ == file_name(
            match digest {
                Some(digest) => Some(digest@),
                None => None,
            },
        ),
{
    match digest {
        Some(digest) => {
            let digits: String = hex(&digest);
            join3("workspace-layout-", digits.as_str(), ".json")
        },
        None => "workspace-layout.json".to_owned(),
    }
}

/// The identity of a profile.
pub fn profile_identity(scope: Option<WorkspaceScope>, auth: &Option<AuthState>) -> (r: Option<
    String,
>)
    ensures
        r.deep_view() == identity(scope, *auth),
{
    match scope {
        Some(WorkspaceScope::Synced) => match auth {
            Some(AuthState::SignedIn { user_id, org_id }) => {
                let head: String = join3("synced:", user_id.as_str(), ":");
                match org_id {
                    Some(org) => Some(join2(head.as_str(), org.as_str())),
                    None => {
                        proof {
                            assert(head@ + Seq::<char>::empty() =~= head@);
                        }
                        Some(head)
                    },
                }
            },
            _ => None,
        },
        Some(WorkspaceScope::Development) => Some("development".to_owned()),
        _ => None,
    }
}

/// The file a profile keeps its arrangement in, inside the data directory. A
/// profile of its own gets the digest of its identity in the name.
pub fn layout_path(scope: Option<WorkspaceScope>, auth: &Option<AuthState>) -> (r: String)
    ensures
        r@ == file_name(
            match identity(scope, *auth) {
                Some(identity) => Some(sha256(encode_utf8(identity))),
                None => None,
            },
        ),
{
    match profile_identity(scope, auth) {
        Some(identity) => name_for_digest(Some(sha256_digest(identity.as_str().as_bytes()))),
        None => name_for_digest(None),
    }
}

/// Digits tell bytes apart.
proof fn hex_tells_bytes_apart(a: Seq<u8>, b: Seq<u8>)
    requires
        hex_text(a) == hex_text(b),
    ensures
        a == b,
    decreases a.len(),
{
    hex_length(a);
    hex_length(b);
    if a.len() > 0 {
        let x = hex_text(a);
        let y = hex_text(b);
        assert(x.drop_last().drop_last() =~= hex_text(a.drop_last()));
        assert(y.drop_last().drop_last() =~= hex_text(b.drop_last()));
        hex_tells_bytes_apart(a.drop_last(), b.drop_last());
        assert(x.last() == hex_digit(a.last() as int % 16));
        assert(y.last() == hex_digit(b.last() as int % 16));
        assert(x.drop_last().last() == hex_digit(a.last() as int / 16));
        assert(y.drop_last().last() == hex_digit(b.last() as int / 16));
        assert(a.last() == b.last());
        assert(a =~= a.drop_last().push(a.last()));
        assert(b =~= b.drop_last().push(b.last()));
    } else {
        assert(a =~= b);
    }
}

/// Two digits stand for each byte.
proof fn hex_length(bytes: Seq<u8>)
    ensures
        hex_text(bytes).len() == 2 * bytes.len(),
    decreases bytes.len(),
{
    if bytes.len() > 0 {
        hex_length(bytes.drop_last());
    }
}

/// Profiles with different digests never share a file, and no profile of its
/// own shares the local one.
pub proof fn profiles_do_not_share_files(a: Seq<u8>, b: Seq<u8>)
    requires
        a.len() == 32,
        b.len() == 32,
    ensures
        file_name(Some(a)) == file_name(Some(b)) ==> a == b,
        file_name(Some(a)) != file_name(None),
{
    reveal_strlit("workspace-layout-");
    reveal_strlit("workspace-layout.json");
    reveal_strlit(".json");
    hex_length(a);
    hex_length(b);
    let head = "workspace-layout-"@;
    let x = file_name(Some(a));
    let y = file_name(Some(b));
    assert(x.len() == head.len() + 64 + 5);
    assert(file_name(None).len() == 21);
    if x == y {
        assert(x.subrange(head.len() as int, head.len() as int + 64) =~= hex_text(a));
        assert(y.subrange(head.len() as int, head.len() as int + 64) =~= hex_text(b));
        hex_tells_bytes_apart(a, b);
    }
}

} // verus!
