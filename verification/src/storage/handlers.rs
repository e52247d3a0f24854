//! File storage: where an upload is stored and who may download a stored file.
//! A file's key names its kind first and then, for files of a workspace, the
//! workspace.
use vstd::prelude::*;
use crate::error::{
    AppError, ErrorKind, Refusal, ValidationErrors, decided, failed_field, finish_validation,
    invalid_with, note_field, refuse, validation_outcome,
};
use crate::ids::{hex_char, hex32, new_uuid_v7, nibble, parse_uuid, uuid_parse, uuid_text, uuid_to_string};
use crate::text::{chars_of, starts_with, str_eq, str_starts_with, string_from_chars};
use crate::validation::{chars_within, len_within};

verus! {

/// How long an upload address stays valid, in seconds.
pub const UPLOAD_URL_SECS: u64 = 900;

/// How long a download address stays valid, in seconds.
pub const DOWNLOAD_URL_SECS: u64 = 3600;

/// The file extension of an accepted content type.
pub open spec fn extension_of(ct: Seq<char>) -> Option<Seq<char>> {
    if ct == "image/jpeg"@ {
        Some("jpg"@)
    } else if ct == "image/png"@ {
        Some("png"@)
    } else if ct == "image/webp"@ {
        Some("webp"@)
    } else if ct == "image/gif"@ {
        Some("gif"@)
    } else if ct == "application/pdf"@ {
        Some("pdf"@)
    } else if ct == "audio/mpeg"@ {
        Some("mp3"@)
    } else if ct == "audio/mp4"@ {
        Some("m4a"@)
    } else if ct == "audio/webm"@ {
        Some("webm"@)
    } else if ct == "audio/ogg"@ {
        Some("ogg"@)
    } else if ct == "video/mp4"@ {
        Some("mp4"@)
    } else if ct == "video/webm"@ {
        Some("webm"@)
    } else {
        None
    }
}

pub fn content_extension(ct: &str) -> (r: Option<&'static str>)
    ensures
        match r {
            Some(e) => extension_of(ct@) == Some(e@),
            None => extension_of(ct@) is None,
        },
{
    if str_eq(ct, "image/jpeg") {
        Some("jpg")
    } else if str_eq(ct, "image/png") {
        Some("png")
    } else if str_eq(ct, "image/webp") {
        Some("webp")
    } else if str_eq(ct, "image/gif") {
        Some("gif")
    } else if str_eq(ct, "application/pdf") {
        Some("pdf")
    } else if str_eq(ct, "audio/mpeg") {
        Some("mp3")
    } else if str_eq(ct, "audio/mp4") {
        Some("m4a")
    } else if str_eq(ct, "audio/webm") {
        Some("webm")
    } else if str_eq(ct, "audio/ogg") {
        Some("ogg")
    } else if str_eq(ct, "video/mp4") {
        Some("mp4")
    } else if str_eq(ct, "video/webm") {
        Some("webm")
    } else {
        None
    }
}

pub struct RequestUploadRequest {
    pub purpose: String,
    pub content_type: String,
    pub size_bytes: i64,
    pub workspace_id: Option<u128>,
    pub message_id: Option<u128>,
    pub assignment_id: Option<u128>,
    pub submission_id: Option<u128>,
    pub question_id: Option<u128>,
    pub note_id: Option<u128>,
}

impl RequestUploadRequest {
    pub open spec fn failures(self) -> Seq<Seq<char>> {
        Seq::empty() + failed_field(len_within(self.content_type@, 2, 100), "content_type"@)
            + failed_field(1 <= self.size_bytes <= 52428800, "size_bytes"@)
    }

    pub fn validate(&self) -> (r: Result<(), ValidationErrors>)
        ensures
            validation_outcome(r, self.failures()),
    {
        let mut errs: Vec<String> = Vec::new();
        assert(crate::json::views(errs@) =~= Seq::<Seq<char>>::empty());
        note_field(&mut errs, chars_within(self.content_type.as_str(), 2, 100), "content_type");
        note_field(&mut errs, 1 <= self.size_bytes && self.size_bytes <= 52428800, "size_bytes");
        finish_validation(errs)
    }
}

pub struct RequestUploadResponse {
    pub upload_url: String,
    pub s3_key: String,
    pub expires_in_seconds: u64,
}

/// A key of kind `kind` naming two identifiers: `kind/a/b.ext`.
pub open spec fn key2(kind: Seq<char>, a: u128, b: u128, ext: Seq<char>) -> Seq<char> {
    kind + seq!['/'] + uuid_text(a) + seq!['/'] + uuid_text(b) + seq!['.'] + ext
}

/// A key of kind `kind` naming three identifiers: `kind/a/b/c.ext`.
pub open spec fn key3(kind: Seq<char>, a: u128, b: u128, c: u128, ext: Seq<char>) -> Seq<char> {
    kind + seq!['/'] + uuid_text(a) + seq!['/'] + uuid_text(b) + seq!['/'] + uuid_text(c) + seq!['.']
        + ext
}

/// The key an upload is stored under, or the refusal: `file` is the new file's
/// identifier and `ext` its extension. Files of a workspace name the workspace
/// first, then the item they belong to.
pub open spec fn upload_key(
    req: RequestUploadRequest,
    user_id: u128,
    file: u128,
    ext: Seq<char>,
) -> Result<Seq<char>, Refusal> {
    let p = req.purpose@;
    if p == "avatar"@ {
        Ok(key2("avatars"@, user_id, file, ext))
    } else if p == "tutor_photo"@ || p == "workspace_avatar"@ || p == "message"@ || p
        == "assignment"@ || p == "submission"@ || p == "exam_media"@ || p == "note"@ {
        match req.workspace_id {
            None => Err((ErrorKind::BadRequest, "workspace_id required"@)),
            Some(ws) => if p == "tutor_photo"@ {
                Ok(key3("tutor-photos"@, ws, user_id, file, ext))
            } else if p == "workspace_avatar"@ {
                Ok(key2("workspace-avatars"@, ws, file, ext))
            } else if p == "message"@ {
                match req.message_id {
                    None => Err((ErrorKind::BadRequest, "message_id required"@)),
                    Some(m) => Ok(key3("messages"@, ws, m, file, ext)),
                }
            } else if p == "assignment"@ {
                match req.assignment_id {
                    None => Err((ErrorKind::BadRequest, "assignment_id required"@)),
                    Some(a) => Ok(key3("assignments"@, ws, a, file, ext)),
                }
            } else if p == "submission"@ {
                match req.submission_id {
                    None => Err((ErrorKind::BadRequest, "submission_id required"@)),
                    Some(s) => Ok(key3("submissions"@, ws, s, file, ext)),
                }
            } else if p == "exam_media"@ {
                match req.question_id {
                    None => Err((ErrorKind::BadRequest, "question_id required"@)),
                    Some(q) => Ok(key3("exam-media"@, ws, q, file, ext)),
                }
            } else {
                match req.note_id {
                    None => Err((ErrorKind::BadRequest, "note_id required"@)),
                    Some(n) => Ok(key3("notes"@, ws, n, file, ext)),
                }
            },
        }
    } else {
        Err((ErrorKind::BadRequest, "invalid purpose"@))
    }
}

fn append_uuid(s: &mut String, u: u128)
    ensures
        final(s)@ == old(s)@ + uuid_text(u),
{
    let t = uuid_to_string(u);
    s.append(t.as_str());
}

fn build_key2(kind: &str, a: u128, b: u128, ext: &str) -> (r: String)
    ensures
        r@ == key2(kind@, a, b, ext@),
{
    let mut s = String::from_str(kind);
    s.append("/");
    append_uuid(&mut s, a);
    s.append("/");
    append_uuid(&mut s, b);
    s.append(".");
    s.append(ext);
    proof {
        reveal_strlit("/");
        reveal_strlit(".");
    }
    s
}

fn build_key3(kind: &str, a: u128, b: u128, c: u128, ext: &str) -> (r: String)
    ensures
        r@ == key3(kind@, a, b, c, ext@),
{
    let mut s = String::from_str(kind);
    s.append("/");
    append_uuid(&mut s, a);
    s.append("/");
    append_uuid(&mut s, b);
    s.append("/");
    append_uuid(&mut s, c);
    s.append(".");
    s.append(ext);
    proof {
        reveal_strlit("/");
        reveal_strlit(".");
    }
    s
}

fn required(id: Option<u128>, msg: &str) -> (r: Result<u128, AppError>)
    ensures
        match id {
            Some(v) => r == Ok::<u128, AppError>(v),
            None => r matches Err(e) && e.kind() == Some(ErrorKind::BadRequest) && e.msg() == msg@,
        },
{
    match id {
        Some(v) => Ok(v),
        None => Err(refuse(ErrorKind::BadRequest, msg)),
    }
}

/// The result `r` is the key or the refusal `k` describes.
pub open spec fn key_outcome(r: Result<String, AppError>, k: Result<Seq<char>, Refusal>) -> bool {
    match k {
        Ok(key) => r matches Ok(s) && s@ == key,
        Err(f) => crate::error::fails_with(r, f),
    }
}

/// Builds the key an upload is stored under (see `upload_key`).
pub fn storage_key(req: &RequestUploadRequest, user_id: u128, file: u128, ext: &str) -> (r: Result<
    String,
    AppError,
>)
    ensures
        key_outcome(r, upload_key(*req, user_id, file, ext@)),
{
    let p = req.purpose.as_str();
    if str_eq(p, "avatar") {
        return Ok(build_key2("avatars", user_id, file, ext));
    }
    let scoped = str_eq(p, "tutor_photo") || str_eq(p, "workspace_avatar") || str_eq(p, "message")
        || str_eq(p, "assignment") || str_eq(p, "submission") || str_eq(p, "exam_media") || str_eq(
        p,
        "note",
    );
    if !scoped {
        return Err(refuse(ErrorKind::BadRequest, "invalid purpose"));
    }
    let ws = required(req.workspace_id, "workspace_id required")?;
    if str_eq(p, "tutor_photo") {
        Ok(build_key3("tutor-photos", ws, user_id, file, ext))
    } else if str_eq(p, "workspace_avatar") {
        Ok(build_key2("workspace-avatars", ws, file, ext))
    } else if str_eq(p, "message") {
        let m = required(req.message_id, "message_id required")?;
        Ok(build_key3("messages", ws, m, file, ext))
    } else if str_eq(p, "assignment") {
        let a = required(req.assignment_id, "assignment_id required")?;
        Ok(build_key3("assignments", ws, a, file, ext))
    } else if str_eq(p, "submission") {
        let s = required(req.submission_id, "submission_id required")?;
        Ok(build_key3("submissions", ws, s, file, ext))
    } else if str_eq(p, "exam_media") {
        let q = required(req.question_id, "question_id required")?;
        Ok(build_key3("exam-media", ws, q, file, ext))
    } else {
        let n = required(req.note_id, "note_id required")?;
        Ok(build_key3("notes", ws, n, file, ext))
    }
}

/// The outcome of an upload request that passed validation: refused for a
/// content type that is not accepted, else the key (or refusal) its purpose
/// prescribes for some fresh file identifier.
pub open spec fn upload_outcome(r: Result<String, AppError>, req: RequestUploadRequest, user_id: u128) -> bool {
    match extension_of(req.content_type@) {
        None => crate::error::fails_with(r, (ErrorKind::BadRequest, "content type not llowed"@)),
        Some(ext) => exists|file: u128| #[trigger] key_outcome(r, upload_key(req, user_id, file, ext)),
    }
}

/// Decides an upload: a valid request with an accepted content type; the file
/// gets a fresh identifier and is stored under the key its purpose prescribes.
/// Returns the key.
pub fn plan_upload(req: &RequestUploadRequest, user_id: u128) -> (r: Result<String, AppError>)
    ensures
        req.failures().len() > 0 ==> invalid_with(r, req.failures()),
        req.failures().len() == 0 ==> upload_outcome(r, *req, user_id),
{
    match req.validate() {
        Err(e) => {
            return Err(AppError::Validation(e));
        },
        Ok(()) => {},
    }
    let ext = match content_extension(req.content_type.as_str()) {
        None => {
            return Err(refuse(ErrorKind::BadRequest, "content type not llowed"));
        },
        Some(e) => e,
    };
    let file = new_uuid_v7();
    let r = storage_key(req, user_id, file, ext);
    assert(key_outcome(r, upload_key(*req, user_id, file, ext@)));
    assert(extension_of(req.content_type@) == Some(ext@));
    assert(exists|f: u128| #[trigger] key_outcome(r, upload_key(*req, user_id, f, ext@)));
    r
}

pub struct DownloadUrlQuery {
    pub key: String,
}

pub struct DownloadUrlResponse {
    pub download_url: String,
    pub expires_in_seconds: u64,
}

/// Who may download a stored file: anyone signed in, or the members of one
/// workspace.
#[derive(PartialEq, Eq, Structural, Clone, Copy)]
pub enum DownloadAccess {
    Anyone,
    WorkspaceMembers(u128),
}

/// The text after the first `/`, if there is one.
pub open spec fn after_first_slash(s: Seq<char>) -> Option<Seq<char>>
    decreases s.len(),
{
    if s.len() == 0 {
        None
    } else if s[0] == '/' {
        Some(s.drop_first())
    } else {
        after_first_slash(s.drop_first())
    }
}

/// The text up to the first `/`, or all of it.
pub open spec fn until_slash(s: Seq<char>) -> Seq<char>
    decreases s.len(),
{
    if s.len() == 0 {
        s
    } else if s[0] == '/' {
        Seq::empty()
    } else {
        seq![s[0]] + until_slash(s.drop_first())
    }
}

/// The second `/`-separated field of a key (`key.split('/').nth(1)`), if the key
/// has a `/`.
pub open spec fn second_field(s: Seq<char>) -> Option<Seq<char>> {
    match after_first_slash(s) {
        Some(rest) => Some(until_slash(rest)),
        None => None,
    }
}

/// Keys of files visible to the members of the workspace they name, with a
/// message of their own for a key without a second field.
pub open spec fn workspace_photo_key(key: Seq<char>) -> bool {
    starts_with(key, "tutor-photos/"@) || starts_with(key, "workspace-avatars/"@)
}

pub open spec fn workspace_content_key(key: Seq<char>) -> bool {
    starts_with(key, "messages/"@) || starts_with(key, "assignments/"@) || starts_with(
        key,
        "submissions/"@,
    ) || starts_with(key, "exam-media/"@) || starts_with(key, "notes/"@)
}

/// Who may download the file under `key`, given the workspace its second field
/// parses to (`parsed`): avatars are open to anyone; photos and content of a
/// workspace to its members; other keys are refused.
pub open spec fn download_rule(key: Seq<char>, parsed: Option<u128>) -> Result<DownloadAccess, Refusal> {
    if starts_with(key, "avatars/"@) {
        Ok(DownloadAccess::Anyone)
    } else if workspace_photo_key(key) || workspace_content_key(key) {
        match second_field(key) {
            None => Err(
                (
                    ErrorKind::BadRequest,
                    if workspace_photo_key(key) {
                        "invalid key"@
                    } else {
                        "invalid workspace id in key"@
                    },
                ),
            ),
            Some(_) => match parsed {
                Some(w) => Ok(DownloadAccess::WorkspaceMembers(w)),
                None => Err((ErrorKind::BadRequest, "invalid workspace id in key"@)),
            },
        }
    } else {
        Err((ErrorKind::BadRequest, "unknown key prefix"@))
    }
}

pub open spec fn access_outcome(r: Result<DownloadAccess, AppError>, k: Result<DownloadAccess, Refusal>) -> bool {
    match k {
        Ok(a) => r == Ok::<DownloadAccess, AppError>(a),
        Err(f) => crate::error::fails_with(r, f),
    }
}

/// The workspace a key's second field parses to.
pub open spec fn key_workspace(key: Seq<char>) -> Option<u128> {
    match second_field(key) {
        Some(f) => uuid_parse(f),
        None => None,
    }
}

fn second_field_of(key: &str) -> (r: Option<String>)
    ensures
        match second_field(key@) {
            Some(f) => r matches Some(s) && s@ == f,
            None => r is None,
        },
{
    let cs = chars_of(key);
    let n = cs.len();
    let mut i: usize = 0;
    assert(key@.subrange(0, n as int) =~= key@);
    while i < n && cs[i] != '/'
        invariant
            cs@ == key@,
            n == cs@.len(),
            i <= n,
            after_first_slash(key@) == after_first_slash(key@.subrange(i as int, n as int)),
        decreases n - i,
    {
        assert(key@.subrange(i as int, n as int).drop_first() =~= key@.subrange(i + 1, n as int));
        i = i + 1;
    }
    if i == n {
        assert(key@.subrange(i as int, n as int).len() == 0);
        return None;
    }
    assert(key@.subrange(i as int, n as int).drop_first() =~= key@.subrange(i + 1, n as int));
    let start = i + 1;
    let mut j: usize = start;
    let mut out: Vec<char> = Vec::new();
    while j < n && cs[j] != '/'
        invariant
            cs@ == key@,
            n == cs@.len(),
            start <= j <= n,
            out@ + until_slash(key@.subrange(j as int, n as int)) == until_slash(
                key@.subrange(start as int, n as int),
            ),
        decreases n - j,
    {
        assert(key@.subrange(j as int, n as int).drop_first() =~= key@.subrange(j + 1, n as int));
        assert(out@.push(cs@[j as int]) + until_slash(key@.subrange(j + 1, n as int)) =~= out@
            + until_slash(key@.subrange(j as int, n as int)));
        out.push(cs[j]);
        j = j + 1;
    }
    assert(until_slash(key@.subrange(j as int, n as int)) =~= Seq::<char>::empty());
    assert(out@ =~= until_slash(key@.subrange(start as int, n as int)));
    Some(string_from_chars(out.as_slice()))
}

/// Decides who may download the file under `key` (see `download_rule`): the
/// workspace is read from the key's second field.
pub fn download_access(key: &str) -> (r: Result<DownloadAccess, AppError>)
    ensures
        access_outcome(r, download_rule(key@, key_workspace(key@))),
        forall|w: u128|
            second_field(key@) == Some(#[trigger] uuid_text(w)) ==> access_outcome(
                r,
                download_rule(key@, Some(w)),
            ),
{
    if str_starts_with(key, "avatars/") {
        return Ok(DownloadAccess::Anyone);
    }
    let photo = str_starts_with(key, "tutor-photos/") || str_starts_with(key, "workspace-avatars/");
    let content = str_starts_with(key, "messages/") || str_starts_with(key, "assignments/")
        || str_starts_with(key, "submissions/") || str_starts_with(key, "exam-media/")
        || str_starts_with(key, "notes/");
    if !photo && !content {
        return Err(refuse(ErrorKind::BadRequest, "unknown key prefix"));
    }
    let field = match second_field_of(key) {
        None => {
            if photo {
                return Err(refuse(ErrorKind::BadRequest, "invalid key"));
            } else {
                return Err(refuse(ErrorKind::BadRequest, "invalid workspace id in key"));
            }
        },
        Some(f) => f,
    };
    match parse_uuid(field.as_str()) {
        Ok(w) => Ok(DownloadAccess::WorkspaceMembers(w)),
        Err(_) => Err(refuse(ErrorKind::BadRequest, "invalid workspace id in key")),
    }
}

/// A download of a workspace's file needs an active membership of it.
pub fn check_download_member(is_member: bool) -> (r: Result<(), AppError>)
    ensures
        decided(
            r,
            if is_member {
                None
            } else {
                Some((ErrorKind::Forbidden, "not a workspace member"@))
            },
        ),
{
    if !is_member {
        return Err(refuse(ErrorKind::Forbidden, "not a workspace member"));
    }
    Ok(())
}

pub open spec fn no_slash(s: Seq<char>) -> bool {
    forall|i: int| 0 <= i < s.len() ==> s[i] != '/'
}

proof fn lemma_uuid_text_no_slash(u: u128)
    ensures
        no_slash(uuid_text(u)),
{
    let h = hex32(u);
    assert forall|i: int| 0 <= i < h.len() implies h[i] != '/' by {
        let d = nibble(u, i);
        assert(h[i] == hex_char(d));
    }
    assert forall|i: int| 0 <= i < uuid_text(u).len() implies uuid_text(u)[i] != '/' by {
        let t = uuid_text(u);
        if i < 8 {
            assert(t[i] == h[i]);
        } else if i == 8 || i == 13 || i == 18 || i == 23 {
        } else if i < 13 {
            assert(t[i] == h[i - 1]);
        } else if i < 18 {
            assert(t[i] == h[i - 2]);
        } else if i < 23 {
            assert(t[i] == h[i - 3]);
        } else {
            assert(t[i] == h[i - 4]);
        }
    }
}

proof fn lemma_first_slash(a: Seq<char>, b: Seq<char>)
    requires
        no_slash(a),
    ensures
        after_first_slash(a + seq!['/'] + b) == Some(b),
        until_slash(a + seq!['/'] + b) == a,
    decreases a.len(),
{
    let s = a + seq!['/'] + b;
    if a.len() == 0 {
        assert(s[0] == '/');
        assert(s.drop_first() =~= b);
        assert(until_slash(s) =~= a);
    } else {
        lemma_first_slash(a.drop_first(), b);
        assert(s.drop_first() =~= a.drop_first() + seq!['/'] + b);
        assert(s[0] == a[0]);
        assert(until_slash(s) =~= seq![a[0]] + a.drop_first());
        assert(seq![a[0]] + a.drop_first() =~= a);
    }
}

/// The second field of a key of kind `kind` that names `a` first is `a`'s text.
proof fn lemma_second_field(kind: Seq<char>, a: u128, rest: Seq<char>)
    requires
        no_slash(kind),
    ensures
        second_field(kind + seq!['/'] + uuid_text(a) + seq!['/'] + rest) == Some(uuid_text(a)),
{
    lemma_uuid_text_no_slash(a);
    let tail = uuid_text(a) + seq!['/'] + rest;
    lemma_first_slash(kind, tail);
    assert(kind + seq!['/'] + uuid_text(a) + seq!['/'] + rest =~= kind + seq!['/'] + tail);
    lemma_first_slash(uuid_text(a), rest);
}

/// A file stored for a workspace can be downloaded by the members of that
/// workspace, its key naming the workspace where downloads read it; a user's
/// avatar can be downloaded by anyone.
#[verifier::spinoff_prover]
#[verifier::rlimit(40)]
pub proof fn law_uploads_downloadable(
    req: RequestUploadRequest,
    user_id: u128,
    file: u128,
    ext: Seq<char>,
    key: Seq<char>,
)
    requires
        upload_key(req, user_id, file, ext) == Ok::<Seq<char>, Refusal>(key),
    ensures
        req.purpose@ == "avatar"@ ==> forall|p: Option<u128>|
            #[trigger] download_rule(key, p) == Ok::<DownloadAccess, Refusal>(DownloadAccess::Anyone),
        req.purpose@ != "avatar"@ ==> (req.workspace_id matches Some(ws) && second_field(key)
            == Some(uuid_text(ws)) && download_rule(key, Some(ws)) == Ok::<DownloadAccess, Refusal>(
            DownloadAccess::WorkspaceMembers(ws),
        )),
{
    reveal_strlit("avatars");
    reveal_strlit("avatars/");
    reveal_strlit("tutor-photos");
    reveal_strlit("tutor-photos/");
    reveal_strlit("messages");
    reveal_strlit("messages/");
    reveal_strlit("assignments");
    reveal_strlit("assignments/");
    reveal_strlit("submissions");
    reveal_strlit("submissions/");
    reveal_strlit("exam-media");
    reveal_strlit("exam-media/");
    reveal_strlit("notes");
    reveal_strlit("notes/");
    reveal_strlit("workspace-avatars");
    reveal_strlit("workspace-avatars/");
    reveal_strlit("workspace_avatar");
    reveal_strlit("tutor_photo");
    let p = req.purpose@;
    if p == "avatar"@ {
        let rest = uuid_text(user_id) + seq!['/'] + uuid_text(file) + seq!['.'] + ext;
        assert(key =~= "avatars"@ + seq!['/'] + rest);
        assert(key.subrange(0, 8) =~= "avatars/"@);
    } else {
        let ws = req.workspace_id.unwrap();
        let kind: Seq<char> = if p == "tutor_photo"@ {
            "tutor-photos"@
        } else if p == "workspace_avatar"@ {
            "workspace-avatars"@
        } else if p == "message"@ {
            "messages"@
        } else if p == "assignment"@ {
            "assignments"@
        } else if p == "submission"@ {
            "submissions"@
        } else if p == "exam_media"@ {
            "exam-media"@
        } else {
            "notes"@
        };
        let second: u128 = if p == "tutor_photo"@ {
            user_id
        } else if p == "message"@ {
            req.message_id.unwrap()
        } else if p == "assignment"@ {
            req.assignment_id.unwrap()
        } else if p == "submission"@ {
            req.submission_id.unwrap()
        } else if p == "exam_media"@ {
            req.question_id.unwrap()
        } else {
            req.note_id.unwrap()
        };
        let rest = if p == "workspace_avatar"@ {
            uuid_text(file) + seq!['.'] + ext
        } else {
            uuid_text(second) + seq!['/'] + uuid_text(file) + seq!['.'] + ext
        };
        if p == "workspace_avatar"@ {
            assert(p[0] != "tutor_photo"@[0]);
            assert(key == key2("workspace-avatars"@, ws, file, ext));
            assert(key =~= kind + seq!['/'] + uuid_text(ws) + seq!['/'] + rest);
        } else {
            assert(key =~= kind + seq!['/'] + uuid_text(ws) + seq!['/'] + rest);
        }
        assert(no_slash(kind));
        lemma_second_field(kind, ws, rest);
        assert(key[0] != 'a' || key[1] != 'v');
        assert(!starts_with(key, "avatars/"@)) by {
            if starts_with(key, "avatars/"@) {
                assert(key.subrange(0, 8)[0] == 'a');
                assert(key.subrange(0, 8)[1] == 'v');
            }
        }
        let lit = kind + seq!['/'];
        assert(key.subrange(0, lit.len() as int) =~= lit);
        if p == "tutor_photo"@ {
            assert(lit =~= "tutor-photos/"@);
        } else if p == "workspace_avatar"@ {
            assert(lit =~= "workspace-avatars/"@);
        } else if p == "message"@ {
            assert(lit =~= "messages/"@);
        } else if p == "assignment"@ {
            assert(lit =~= "assignments/"@);
        } else if p == "submission"@ {
            assert(lit =~= "submissions/"@);
        } else if p == "exam_media"@ {
            assert(lit =~= "exam-media/"@);
        } else {
            assert(lit =~= "notes/"@);
        }
        assert(workspace_photo_key(key) || workspace_content_key(key));
    }
}

} // verus!
