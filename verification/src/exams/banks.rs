//! Question banks and their questions: who may create, publish, fill, read and
//! prune a bank. A bank belongs to the platform or to one workspace.
use vstd::prelude::*;
use crate::classes::handlers::{is_tutor_name, tutor_name};
use crate::error::{
    AppError, ErrorKind, Refusal, ValidationErrors, decided, failed_field, finish_validation,
    invalid_with, note_field, refuse, validation_outcome,
};
use crate::json::JsonValue;
use crate::payments::tuition::{admin_name, is_admin_name};
use crate::text::str_eq;
use crate::validation::{chars_within, len_within};
use crate::workspaces::types::WorkspaceRole;

verus! {

/// The language of a bank that names none: English.
pub fn default_language() -> (s: String)
    ensures
        s@ == "en"@,
{
    String::from_str("en")
}

pub struct CreateBankRequest {
    pub name: String,
    pub description: Option<String>,
    pub subject: String,
    pub exam_type: String,
    pub language: String,
}

impl CreateBankRequest {
    pub open spec fn failures(self) -> Seq<Seq<char>> {
        Seq::empty() + failed_field(len_within(self.name@, 2, 200), "name"@) + failed_field(
            len_within(self.subject@, 1, 100),
            "subject"@,
        )
    }

    pub fn validate(&self) -> (r: Result<(), ValidationErrors>)
        ensures
            validation_outcome(r, self.failures()),
    {
        let mut errs: Vec<String> = Vec::new();
        assert(crate::json::views(errs@) =~= Seq::<Seq<char>>::empty());
        note_field(&mut errs, chars_within(self.name.as_str(), 2, 200), "name");
        note_field(&mut errs, chars_within(self.subject.as_str(), 1, 100), "subject");
        finish_validation(errs)
    }
}

/// Decides creating a workspace bank: a valid request by a tutor or higher.
pub fn check_create_bank(req: &CreateBankRequest, role: WorkspaceRole) -> (r: Result<(), AppError>)
    ensures
        req.failures().len() > 0 ==> invalid_with(r, req.failures()),
        req.failures().len() == 0 ==> decided(
            r,
            if role.tutor_or_above() {
                None
            } else {
                Some((ErrorKind::Forbidden, "tutor role required"@))
            },
        ),
{
    match req.validate() {
        Err(e) => {
            return Err(AppError::Validation(e));
        },
        Ok(()) => {},
    }
    if !role.is_tutor_or_above() {
        return Err(refuse(ErrorKind::Forbidden, "tutor role required"));
    }
    Ok(())
}

/// A bank as its management rules see it: its owner kind, its creator, how many
/// questions it holds, whether it is published, and the caller's role in the
/// owning workspace.
pub struct BankRow {
    pub owner_type: String,
    pub created_by_user_id: u128,
    pub question_count: i32,
    pub is_published: bool,
    pub role: Option<String>,
}

pub open spec fn publish_bank_refusal(row: Option<BankRow>, user_id: u128, platform_admin: bool) -> Option<
    Refusal,
> {
    match row {
        None => Some((ErrorKind::NotFound, "bank not found"@)),
        Some(b) => if b.owner_type@ == "platform"@ && !platform_admin {
            Some((ErrorKind::Forbidden, "platform admin only"@))
        } else if b.owner_type@ != "platform"@ && b.created_by_user_id != user_id
            && !is_admin_name(b.role.unwrap()@) {
            Some((ErrorKind::Forbidden, "creator or admin only"@))
        } else if b.question_count == 0 {
            Some((ErrorKind::BadRequest, "cannot publish emptybank"@))
        } else {
            None
        },
    }
}

/// Decides publishing a bank: a platform bank by a platform administrator, a
/// workspace bank by its creator or an administrator of the workspace; never an
/// empty bank. The caller of a workspace bank must be a member of its workspace.
pub fn check_publish_bank(row: &Option<BankRow>, user_id: u128, platform_admin: bool) -> (r: Result<
    (),
    AppError,
>)
    requires
        row matches Some(b) ==> (b.owner_type@ != "platform"@ ==> b.role is Some),
    ensures
        decided(r, publish_bank_refusal(*row, user_id, platform_admin)),
{
    let b = match row {
        None => {
            return Err(refuse(ErrorKind::NotFound, "bank not found"));
        },
        Some(b) => b,
    };
    if str_eq(b.owner_type.as_str(), "platform") {
        if !platform_admin {
            return Err(refuse(ErrorKind::Forbidden, "platform admin only"));
        }
    } else {
        let role = b.role.as_ref().unwrap();
        if b.created_by_user_id != user_id && !admin_name(role.as_str()) {
            return Err(refuse(ErrorKind::Forbidden, "creator or admin only"));
        }
    }
    if b.question_count == 0 {
        return Err(refuse(ErrorKind::BadRequest, "cannot publish emptybank"));
    }
    Ok(())
}

/// The marks a question is worth when it names none: one.
pub fn default_marks() -> (n: i32)
    ensures
        n == 1,
{
    1
}

/// The media of a question that names none: an empty list.
pub fn default_media() -> (v: JsonValue)
    ensures
        v matches JsonValue::Array(a) && a@.len() == 0,
{
    JsonValue::Array(Vec::new())
}

pub struct QuestionInput {
    pub question_text: String,
    pub question_type: String,
    pub options: Option<JsonValue>,
    pub correct_answer: JsonValue,
    pub explanation: Option<String>,
    pub difficulty: String,
    pub topic_tags: Vec<String>,
    pub year: Option<i32>,
    pub marks: i32,
    pub media_s3_keys: JsonValue,
}

impl QuestionInput {
    pub open spec fn failures(self) -> Seq<Seq<char>> {
        Seq::empty() + failed_field(self.marks >= 1, "marks"@)
    }

    pub fn validate(&self) -> (r: Result<(), ValidationErrors>)
        ensures
            validation_outcome(r, self.failures()),
    {
        let mut errs: Vec<String> = Vec::new();
        assert(crate::json::views(errs@) =~= Seq::<Seq<char>>::empty());
        note_field(&mut errs, self.marks >= 1, "marks");
        finish_validation(errs)
    }
}

/// The index of the first question that fails validation, if any.
pub open spec fn first_invalid(qs: Seq<QuestionInput>) -> Option<int> {
    if exists|i: int| 0 <= i < qs.len() && qs[i].failures().len() > 0 {
        Some(
            choose|i: int|
                0 <= i < qs.len() && qs[i].failures().len() > 0 && forall|j: int|
                    0 <= j < i ==> qs[j].failures().len() == 0,
        )
    } else {
        None
    }
}

pub open spec fn add_questions_refusal(row: Option<BankRow>, user_id: u128, platform_admin: bool) -> Option<
    Refusal,
> {
    match row {
        None => Some((ErrorKind::NotFound, "bank not found"@)),
        Some(b) => if b.owner_type@ == "platform"@ {
            if !platform_admin {
                Some((ErrorKind::Forbidden, "platform admin only"@))
            } else {
                None
            }
        } else {
            match b.role {
                None => Some((ErrorKind::NotFound, "bank not found"@)),
                Some(role) => if b.created_by_user_id != user_id && !is_tutor_name(role@) {
                    Some((ErrorKind::Forbidden, "creator or workspace tutor only"@))
                } else {
                    None
                },
            }
        },
    }
}

/// Decides adding questions to a bank: at least one question, each valid (the
/// first invalid one is reported), added to a platform bank by a platform
/// administrator, or to a workspace bank by its creator or a tutor or higher of
/// the workspace.
pub fn check_add_questions(
    questions: &Vec<QuestionInput>,
    row: &Option<BankRow>,
    user_id: u128,
    platform_admin: bool,
) -> (r: Result<(), AppError>)
    ensures
        questions@.len() == 0 ==> fails_with_empty(r),
        questions@.len() > 0 ==> (first_invalid(questions@) matches Some(i) ==> invalid_with(
            r,
            questions@[i].failures(),
        )),
        questions@.len() > 0 && first_invalid(questions@) is None ==> decided(
            r,
            add_questions_refusal(*row, user_id, platform_admin),
        ),
{
    if questions.len() == 0 {
        return Err(refuse(ErrorKind::BadRequest, "no questions provided"));
    }
    let mut i: usize = 0;
    while i < questions.len()
        invariant
            i <= questions@.len(),
            forall|j: int| 0 <= j < i ==> (#[trigger] questions@[j]).failures().len() == 0,
        decreases questions@.len() - i,
    {
        match questions[i].validate() {
            Err(e) => {
                proof {
                    let k = i as int;
                    assert(0 <= k < questions@.len() && questions@[k].failures().len() > 0
                        && forall|j: int| 0 <= j < k ==> questions@[j].failures().len() == 0);
                    let c = choose|c: int|
                        0 <= c < questions@.len() && questions@[c].failures().len() > 0
                            && forall|j: int| 0 <= j < c ==> questions@[j].failures().len() == 0;
                    if c < k {
                    } else if c > k {
                        assert(questions@[k].failures().len() == 0);
                    }
                    assert(first_invalid(questions@) == Some(k));
                }
                return Err(AppError::Validation(e));
            },
            Ok(()) => {},
        }
        i = i + 1;
    }
    assert(first_invalid(questions@) is None);
    let b = match row {
        None => {
            return Err(refuse(ErrorKind::NotFound, "bank not found"));
        },
        Some(b) => b,
    };
    if str_eq(b.owner_type.as_str(), "platform") {
        if !platform_admin {
            return Err(refuse(ErrorKind::Forbidden, "platform admin only"));
        }
    } else {
        match &b.role {
            None => {
                return Err(refuse(ErrorKind::NotFound, "bank not found"));
            },
            Some(role) => {
                if b.created_by_user_id != user_id && !tutor_name(role.as_str()) {
                    return Err(refuse(ErrorKind::Forbidden, "creator or workspace tutor only"));
                }
            },
        }
    }
    Ok(())
}

/// The refusal of a request that adds no question.
pub open spec fn fails_with_empty(r: Result<(), AppError>) -> bool {
    crate::error::fails_with(r, (ErrorKind::BadRequest, "no questions provided"@))
}

/// Who may read a bank's questions. A platform bank: anyone once it is
/// published, a platform administrator always. A workspace bank: any member of
/// the owning workspace once it is published; before that only its creator or
/// a proprietor or admin of the workspace.
pub open spec fn may_read_bank(row: BankRow, user_id: u128, platform_admin: bool) -> bool {
    if row.owner_type@ == "platform"@ {
        row.is_published || platform_admin
    } else {
        match row.role {
            None => false,
            Some(role) => row.is_published || row.created_by_user_id == user_id || is_admin_name(
                role@,
            ),
        }
    }
}

/// Decides reading a bank's questions; a bank the caller may not read is
/// answered as not found.
pub fn check_list_questions(row: &Option<BankRow>, user_id: u128, platform_admin: bool) -> (r: Result<
    (),
    AppError,
>)
    ensures
        decided(
            r,
            match *row {
                Some(b) => if may_read_bank(b, user_id, platform_admin) {
                    None
                } else {
                    Some((ErrorKind::NotFound, "bank not found"@))
                },
                None => Some((ErrorKind::NotFound, "bank not found"@)),
            },
        ),
{
    match row {
        None => Err(refuse(ErrorKind::NotFound, "bank not found")),
        Some(b) => {
            let can_access = if str_eq(b.owner_type.as_str(), "platform") {
                b.is_published || platform_admin
            } else {
                match &b.role {
                    None => false,
                    Some(role) => b.is_published || b.created_by_user_id == user_id || admin_name(
                        role.as_str(),
                    ),
                }
            };
            if !can_access {
                return Err(refuse(ErrorKind::NotFound, "bank not found"));
            }
            Ok(())
        },
    }
}

pub open spec fn delete_question_refusal(row: Option<BankRow>, user_id: u128, platform_admin: bool) -> Option<
    Refusal,
> {
    match row {
        None => Some((ErrorKind::Forbidden, "platform admin only"@)),
        Some(b) => if b.owner_type@ == "platform"@ {
            if !platform_admin {
                Some((ErrorKind::Forbidden, "platform admin only"@))
            } else {
                None
            }
        } else {
            match b.role {
                None => Some((ErrorKind::NotFound, "question not found"@)),
                Some(role) => if b.created_by_user_id != user_id && !is_admin_name(role@) {
                    Some((ErrorKind::Forbidden, "creator or admin only"@))
                } else {
                    None
                },
            }
        },
    }
}

/// Decides removing a question: `row` is its bank, if the question is live. A
/// platform bank's questions go only by a platform administrator; a workspace
/// bank's by its creator or an administrator of the workspace.
pub fn check_delete_question(row: &Option<BankRow>, user_id: u128, platform_admin: bool) -> (r:
    Result<(), AppError>)
    ensures
        decided(r, delete_question_refusal(*row, user_id, platform_admin)),
{
    let b = match row {
        None => {
            return Err(refuse(ErrorKind::Forbidden, "platform admin only"));
        },
        Some(b) => b,
    };
    if str_eq(b.owner_type.as_str(), "platform") {
        if !platform_admin {
            return Err(refuse(ErrorKind::Forbidden, "platform admin only"));
        }
        Ok(())
    } else {
        match &b.role {
            None => Err(refuse(ErrorKind::NotFound, "question not found")),
            Some(role) => {
                if b.created_by_user_id != user_id && !admin_name(role.as_str()) {
                    Err(refuse(ErrorKind::Forbidden, "creator or admin only"))
                } else {
                    Ok(())
                }
            },
        }
    }
}

/// Only a platform administrator changes a platform bank.
pub proof fn law_platform_banks_need_platform_admin(b: BankRow, user_id: u128)
    requires
        b.owner_type@ == "platform"@,
    ensures
        publish_bank_refusal(Some(b), user_id, false) is Some,
        add_questions_refusal(Some(b), user_id, false) is Some,
        delete_question_refusal(Some(b), user_id, false) is Some,
{
}

/// An unpublished workspace bank is hidden from the members of its workspace
/// who neither created it nor administer the workspace; once published, every
/// member may read it.
pub proof fn law_unpublished_banks_stay_private(b: BankRow, user_id: u128, platform_admin: bool)
    requires
        b.owner_type@ != "platform"@,
        b.role is Some,
    ensures
        !b.is_published && b.created_by_user_id != user_id && !is_admin_name(b.role->0@)
            ==> !may_read_bank(b, user_id, platform_admin),
        b.is_published ==> may_read_bank(b, user_id, platform_admin),
{
}

} // verus!
