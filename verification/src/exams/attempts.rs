//! Sitting an exam: starting or resuming an attempt, laying out its questions,
//! reading it, answering and handing it in. Times are nanoseconds since the Unix
//! epoch.
use vstd::prelude::*;
use rand::rngs::StdRng;
use rand::seq::SliceRandom;
use crate::classes::handlers::{is_tutor_name, tutor_name};
use crate::error::{AppError, ErrorKind, Refusal, decided, refuse};
use crate::json::JsonValue;
use crate::text::str_eq;

verus! {

/// `rand::rngs::StdRng`, a seeded random number generator.
#[verifier::external_type_specification]
#[verifier::external_body]
pub struct ExStdRng(StdRng);

/// Calls `SliceRandom::shuffle` (rand crate) on a vector. The crate swaps items
/// in place, so the items stay the same, each as often as before; their order
/// depends on the generator and is not claimed.
#[verifier::external_body]
pub(crate) fn shuffle_items<T>(v: &mut Vec<T>, rng: &mut StdRng)
    ensures
        final(v)@.to_multiset() == old(v)@.to_multiset(),
{
    v.as_mut_slice().shuffle(rng);
}

/// An exam as the start rule sees it.
pub struct ExamGate {
    pub status: String,
    pub scheduled_start_at: Option<i64>,
    pub scheduled_end_at: Option<i64>,
    pub duration_minutes: i32,
    pub max_attempts: i32,
    pub role: Option<String>,
}

pub const NANOS_PER_MINUTE: i64 = 60000000000;

/// How a start request goes on: back into the caller's attempt in progress, or
/// into a new attempt with its number and deadline.
#[derive(PartialEq, Eq, Structural, Clone, Copy)]
pub enum StartAttempt {
    Resume(u128),
    Begin { attempt_number: i32, deadline_at: i64 },
}

pub open spec fn start_refusal(
    exam: Option<ExamGate>,
    now: i64,
    in_progress: Option<u128>,
    previous: i64,
) -> Option<Refusal> {
    match exam {
        None => Some((ErrorKind::NotFound, "exam not found"@)),
        Some(e) => if e.role is None {
            Some((ErrorKind::NotFound, "exam not found"@))
        } else if e.status@ != "scheduled"@ && e.status@ != "ongoing"@ {
            Some((ErrorKind::BadRequest, "exam is not open"@))
        } else if e.scheduled_start_at matches Some(s) && now < s {
            Some((ErrorKind::BadRequest, "exam has not started yet"@))
        } else if e.scheduled_end_at matches Some(t) && now > t {
            Some((ErrorKind::BadRequest, "exam window has ended"@))
        } else if in_progress is Some {
            None
        } else if previous >= e.max_attempts {
            Some((ErrorKind::BadRequest, "max attempts reached"@))
        } else {
            None
        },
    }
}

/// Decides a start request. `in_progress` is the caller's attempt in progress on
/// this exam, if any; `previous` the number of the caller's attempts that were
/// not voided. The exam must be open and within its window; an attempt in
/// progress is resumed; otherwise a new attempt is numbered after the previous
/// ones, while they are fewer than the exam allows, and is due when the exam's
/// duration has run from now.
pub fn plan_start_attempt(
    exam: &Option<ExamGate>,
    now: i64,
    in_progress: Option<u128>,
    previous: i64,
) -> (r: Result<StartAttempt, AppError>)
    requires
        previous >= 0,
        in_progress is None ==> (exam matches Some(e) ==> i64::MIN <= now + e.duration_minutes
            * NANOS_PER_MINUTE <= i64::MAX),
    ensures
        decided(r, start_refusal(*exam, now, in_progress, previous)),
        r matches Ok(s) ==> match in_progress {
            Some(id) => s == StartAttempt::Resume(id),
            None => *exam matches Some(e) && s == (StartAttempt::Begin {
                attempt_number: (previous + 1) as i32,
                deadline_at: (now + e.duration_minutes * NANOS_PER_MINUTE) as i64,
            }) && previous + 1 <= e.max_attempts,
        },
{
    let e = match exam {
        None => {
            return Err(refuse(ErrorKind::NotFound, "exam not found"));
        },
        Some(e) => e,
    };
    if e.role.is_none() {
        return Err(refuse(ErrorKind::NotFound, "exam not found"));
    }
    if !str_eq(e.status.as_str(), "scheduled") && !str_eq(e.status.as_str(), "ongoing") {
        return Err(refuse(ErrorKind::BadRequest, "exam is not open"));
    }
    match e.scheduled_start_at {
        Some(s) => {
            if now < s {
                return Err(refuse(ErrorKind::BadRequest, "exam has not started yet"));
            }
        },
        None => {},
    }
    match e.scheduled_end_at {
        Some(t) => {
            if now > t {
                return Err(refuse(ErrorKind::BadRequest, "exam window has ended"));
            }
        },
        None => {},
    }
    match in_progress {
        Some(id) => {
            return Ok(StartAttempt::Resume(id));
        },
        None => {},
    }
    if previous >= e.max_attempts as i64 {
        return Err(refuse(ErrorKind::BadRequest, "max attempts reached"));
    }
    assert(-2147483648 * NANOS_PER_MINUTE <= e.duration_minutes * NANOS_PER_MINUTE
        <= 2147483647 * NANOS_PER_MINUTE) by (nonlinear_arith)
        requires
            -2147483648 <= e.duration_minutes <= 2147483647,
    ;
    let wide: i128 = (now as i128) + (e.duration_minutes as i128) * (NANOS_PER_MINUTE as i128);
    let deadline_at = wide as i64;
    Ok(StartAttempt::Begin { attempt_number: (previous + 1) as i32, deadline_at })
}

/// Only a member of the exam's workspace may start or resume it: a caller with
/// no role there is answered as if the exam did not exist, whatever its status,
/// window or attempts.
pub proof fn law_non_members_cannot_start(e: ExamGate, now: i64, in_progress: Option<u128>, previous: i64)
    requires
        e.role is None,
    ensures
        start_refusal(Some(e), now, in_progress, previous) == Some(
            (ErrorKind::NotFound, "exam not found"@),
        ),
{
}

/// A start goes ahead exactly when the caller belongs to the exam's workspace,
/// the exam is scheduled or ongoing, `now` lies inside its window where the
/// window is set, and the caller either has an attempt in progress or has made
/// fewer attempts than the exam allows.
pub proof fn law_start_allowed_exactly_when(
    exam: Option<ExamGate>,
    now: i64,
    in_progress: Option<u128>,
    previous: i64,
)
    ensures
        start_refusal(exam, now, in_progress, previous) is None <==> (exam matches Some(e) && {
            &&& e.role is Some
            &&& (e.status@ == "scheduled"@ || e.status@ == "ongoing"@)
            &&& (e.scheduled_start_at matches Some(st) ==> st <= now)
            &&& (e.scheduled_end_at matches Some(t) ==> now <= t)
            &&& (in_progress is Some || previous < e.max_attempts)
        }),
{
}

/// Whether `now` is before the exam's window opens.
pub open spec fn before_window(e: ExamGate, now: i64) -> bool {
    match e.scheduled_start_at {
        Some(st) => now < st,
        None => false,
    }
}

/// Whether `now` is after the exam's window closes.
pub open spec fn after_window(e: ExamGate, now: i64) -> bool {
    match e.scheduled_end_at {
        Some(t) => now > t,
        None => false,
    }
}

/// Why a member's start is refused, checked in this order: an exam neither
/// scheduled nor ongoing is not open; before its window opens it has not
/// started; after the window closes it has ended; with no attempt in progress
/// and the allowed attempts used up, no more attempts remain.
pub proof fn law_start_refusal_reasons(e: ExamGate, now: i64, in_progress: Option<u128>, previous: i64)
    requires
        e.role is Some,
    ensures
        ({
            let open = e.status@ == "scheduled"@ || e.status@ == "ongoing"@;
            let r = start_refusal(Some(e), now, in_progress, previous);
            &&& !open ==> r == Some((ErrorKind::BadRequest, "exam is not open"@))
            &&& open && before_window(e, now) ==> r == Some(
                (ErrorKind::BadRequest, "exam has not started yet"@),
            )
            &&& open && !before_window(e, now) && after_window(e, now) ==> r == Some(
                (ErrorKind::BadRequest, "exam window has ended"@),
            )
            &&& open && !before_window(e, now) && !after_window(e, now) && in_progress is None
                && previous >= e.max_attempts ==> r == Some(
                (ErrorKind::BadRequest, "max attempts reached"@),
            )
        }),
{
}

/// A student never gets more new attempts than the exam allows.
pub proof fn law_attempts_capped(e: ExamGate, now: i64, previous: i64)
    requires
        previous >= e.max_attempts,
    ensures
        start_refusal(Some(e), now, None, previous) is Some,
{
}

/// Starting an exam while an attempt is in progress resumes that attempt: the
/// decision does not depend on how many attempts were made, and a start that
/// would open a new attempt would resume one in progress just the same.
pub proof fn law_start_resumes(exam: Option<ExamGate>, now: i64, id: u128, previous: i64, other: i64)
    ensures
        start_refusal(exam, now, Some(id), previous) == start_refusal(exam, now, Some(id), other),
        start_refusal(exam, now, None, previous) is None ==> start_refusal(
            exam,
            now,
            Some(id),
            previous,
        ) is None,
{
}

/// An exam that resolves to no questions cannot be sat.
pub fn check_questions_resolved(count: usize) -> (r: Result<(), AppError>)
    ensures
        decided(
            r,
            if count == 0 {
                Some((ErrorKind::Internal, "no questions resolved for exam"@))
            } else {
                None
            },
        ),
{
    if count == 0 {
        return Err(refuse(ErrorKind::Internal, "no questions resolved for exam"));
    }
    Ok(())
}

/// A question drawn for an attempt.
pub struct ResolvedQuestion {
    pub id: u128,
    pub question_text: String,
    pub question_type: String,
    pub options: Option<JsonValue>,
    pub correct_answer: JsonValue,
    pub marks: i32,
}

/// A question's place in an attempt: its position (from 1) and, when options
/// are shuffled, its options in the attempt's order.
pub struct AttemptQuestion {
    pub question_id: u128,
    pub question_order: i32,
    pub shuffled_options: Option<JsonValue>,
}

/// The options an attempt shows in place of `options`: when shuffling, an
/// option list holding the same options; otherwise none.
pub open spec fn shuffled_from(shown: Option<JsonValue>, options: Option<JsonValue>, shuffle: bool) -> bool {
    if shuffle {
        match options {
            Some(JsonValue::Array(a)) => shown matches Some(JsonValue::Array(b)) && b@.to_multiset()
                == a@.to_multiset(),
            _ => shown is None,
        }
    } else {
        shown is None
    }
}

/// Lays out an attempt's questions: in the drawn order, or shuffled when the
/// exam says so, numbered from 1, each with its options shuffled when the exam
/// says so. The same questions appear, each as often as drawn.
pub fn lay_out_questions(
    questions: Vec<ResolvedQuestion>,
    randomize_questions: bool,
    randomize_options: bool,
    rng: &mut StdRng,
) -> (r: Vec<AttemptQuestion>)
    requires
        questions@.len() < i32::MAX,
    ensures
        r@.len() == questions@.len(),
        r@.map_values(|q: AttemptQuestion| q.question_id).to_multiset() == questions@.map_values(
            |q: ResolvedQuestion| q.id,
        ).to_multiset(),
        forall|i: int| 0 <= i < r@.len() ==> #[trigger] r@[i].question_order == i + 1,
        !randomize_questions ==> forall|i: int|
            0 <= i < r@.len() ==> #[trigger] r@[i].question_id == questions@[i].id,
        !randomize_options ==> forall|i: int|
            0 <= i < r@.len() ==> (#[trigger] r@[i]).shuffled_options is None,
        !randomize_questions ==> forall|i: int|
            0 <= i < r@.len() ==> shuffled_from(
                (#[trigger] r@[i]).shuffled_options,
                questions@[i].options,
                randomize_options,
            ),
        forall|i: int|
            0 <= i < r@.len() ==> exists|j: int|
                0 <= j < questions@.len() && questions@[j].id == (#[trigger] r@[i]).question_id
                    && shuffled_from(r@[i].shuffled_options, questions@[j].options, randomize_options),
{
    let mut qs = questions;
    if randomize_questions {
        shuffle_items(&mut qs, rng);
    }
    let ghost drawn = qs@;
    proof {
        broadcast use vstd::seq_lib::group_to_multiset_ensures;

        assert(qs@.to_multiset().len() == questions@.to_multiset().len());
        lemma_map_keeps_multiset(questions@, qs@, |q: ResolvedQuestion| q.id);
    }
    let n = qs.len();
    let mut out: Vec<AttemptQuestion> = Vec::new();
    let mut i: usize = 0;
    while qs.len() > 0
        invariant
            n == drawn.len(),
            n < i32::MAX,
            i + qs@.len() == n,
            qs@ == drawn.subrange(i as int, n as int),
            out@.len() == i,
            forall|j: int| 0 <= j < i ==> #[trigger] out@[j].question_order == j + 1,
            forall|j: int| 0 <= j < i ==> #[trigger] out@[j].question_id == drawn[j].id,
            forall|j: int|
                0 <= j < i ==> shuffled_from(
                    (#[trigger] out@[j]).shuffled_options,
                    drawn[j].options,
                    randomize_options,
                ),
        decreases qs@.len(),
    {
        let q = qs.remove(0);
        assert(q == drawn[i as int]);
        let shown = if randomize_options {
            match q.options {
                Some(JsonValue::Array(items)) => {
                    let mut arr = items;
                    shuffle_items(&mut arr, rng);
                    Some(JsonValue::Array(arr))
                },
                _ => None,
            }
        } else {
            None
        };
        out.push(AttemptQuestion {
            question_id: q.id,
            question_order: (i + 1) as i32,
            shuffled_options: shown,
        });
        i = i + 1;
        assert(qs@ =~= drawn.subrange(i as int, n as int));
    }
    proof {
        assert(out@.map_values(|q: AttemptQuestion| q.question_id) =~= drawn.map_values(
            |q: ResolvedQuestion| q.id,
        ));
        if !randomize_questions {
            assert(drawn == questions@);
        }
        broadcast use vstd::seq_lib::group_to_multiset_ensures;

        assert forall|k: int| 0 <= k < out@.len() implies exists|j: int|
            0 <= j < questions@.len() && questions@[j].id == (#[trigger] out@[k]).question_id
                && shuffled_from(out@[k].shuffled_options, questions@[j].options, randomize_options) by {
            assert(drawn.contains(drawn[k]));
            assert(drawn.to_multiset().count(drawn[k]) > 0);
            assert(questions@.contains(drawn[k]));
            let j = choose|j: int| 0 <= j < questions@.len() && questions@[j] == drawn[k];
            assert(questions@[j].id == out@[k].question_id);
        }
    }
    out
}

/// Who may read an attempt: a member of the exam's workspace who sat it or is a
/// tutor or higher. `row` is the attempt's student and the caller's role in the
/// exam's workspace, if the attempt exists.
pub open spec fn read_attempt_refusal(row: Option<(u128, Option<String>)>, user_id: u128) -> Option<
    Refusal,
> {
    match row {
        None => Some((ErrorKind::NotFound, "attempt not found"@)),
        Some((student, role)) => match role {
            None => Some((ErrorKind::NotFound, "attempt not found"@)),
            Some(r) => if student != user_id && !is_tutor_name(r@) {
                Some((ErrorKind::NotFound, "owner or tutor only"@))
            } else {
                None
            },
        },
    }
}

pub fn check_get_attempt(row: &Option<(u128, Option<String>)>, user_id: u128) -> (r: Result<
    (),
    AppError,
>)
    ensures
        decided(r, read_attempt_refusal(*row, user_id)),
{
    match row {
        None => Err(refuse(ErrorKind::NotFound, "attempt not found")),
        Some((student, role)) => match role {
            None => Err(refuse(ErrorKind::NotFound, "attempt not found")),
            Some(role) => {
                if *student != user_id && !tutor_name(role.as_str()) {
                    Err(refuse(ErrorKind::NotFound, "owner or tutor only"))
                } else {
                    Ok(())
                }
            },
        },
    }
}

pub struct SubmitAnswerRequest {
    pub exam_question_id: u128,
    pub student_answer: JsonValue,
    pub time_spent_seconds: Option<i32>,
}

/// An attempt as the answer and hand-in rules see it.
pub struct AttemptRow {
    pub student_user_id: u128,
    pub deadline_at: i64,
    pub status: String,
}

pub open spec fn answer_refusal(
    attempt: Option<AttemptRow>,
    user_id: u128,
    now: i64,
    question_in_attempt: bool,
) -> Option<Refusal> {
    match attempt {
        None => Some((ErrorKind::NotFound, "attempt not found"@)),
        Some(a) => if a.student_user_id != user_id {
            Some((ErrorKind::Forbidden, "not your attempt"@))
        } else if a.status@ != "in_progress"@ {
            Some((ErrorKind::BadRequest, "attempt is not in progress"@))
        } else if now > a.deadline_at {
            Some((ErrorKind::BadRequest, "attempt deadline has passed"@))
        } else if !question_in_attempt {
            Some((ErrorKind::BadRequest, "question does not belong to this attempt"@))
        } else {
            None
        },
    }
}

/// Decides recording an answer: to the caller's own attempt in progress, before
/// its deadline, for a question of that attempt.
pub fn check_submit_answer(
    attempt: &Option<AttemptRow>,
    user_id: u128,
    now: i64,
    question_in_attempt: bool,
) -> (r: Result<(), AppError>)
    ensures
        decided(r, answer_refusal(*attempt, user_id, now, question_in_attempt)),
{
    match attempt {
        None => Err(refuse(ErrorKind::NotFound, "attempt not found")),
        Some(a) => {
            if a.student_user_id != user_id {
                return Err(refuse(ErrorKind::Forbidden, "not your attempt"));
            }
            if !str_eq(a.status.as_str(), "in_progress") {
                return Err(refuse(ErrorKind::BadRequest, "attempt is not in progress"));
            }
            if now > a.deadline_at {
                return Err(refuse(ErrorKind::BadRequest, "attempt deadline has passed"));
            }
            if !question_in_attempt {
                return Err(refuse(ErrorKind::BadRequest, "question does not belong to this attempt"));
            }
            Ok(())
        },
    }
}

/// No answer is taken after an attempt's deadline.
pub proof fn law_no_answers_after_deadline(a: AttemptRow, user_id: u128, now: i64, q: bool)
    requires
        now > a.deadline_at,
    ensures
        answer_refusal(Some(a), user_id, now, q) is Some,
{
}

pub open spec fn hand_in_refusal(attempt: Option<(u128, String)>, user_id: u128) -> Option<Refusal> {
    match attempt {
        None => Some((ErrorKind::NotFound, "attempt not found"@)),
        Some((student, status)) => if student != user_id {
            Some((ErrorKind::Forbidden, "not your attempt"@))
        } else if status@ != "in_progress"@ {
            Some((ErrorKind::BadRequest, "already submitted"@))
        } else {
            None
        },
    }
}

/// Decides handing in an attempt: the caller's own, still in progress. `attempt`
/// is its student and status, if it exists.
pub fn check_submit_attempt(attempt: &Option<(u128, String)>, user_id: u128) -> (r: Result<
    (),
    AppError,
>)
    ensures
        decided(r, hand_in_refusal(*attempt, user_id)),
{
    match attempt {
        None => Err(refuse(ErrorKind::NotFound, "attempt not found")),
        Some((student, status)) => {
            if *student != user_id {
                return Err(refuse(ErrorKind::Forbidden, "not your attempt"));
            }
            if !str_eq(status.as_str(), "in_progress") {
                return Err(refuse(ErrorKind::BadRequest, "already submitted"));
            }
            Ok(())
        },
    }
}

/// The status an attempt takes when handed in: graded when every answer has
/// marks, else submitted for manual grading.
pub fn status_after_hand_in(ungraded: i64) -> (r: &'static str)
    ensures
        r@ == if ungraded == 0 { "graded"@ } else { "submitted"@ },
{
    if ungraded == 0 {
        "graded"
    } else {
        "submitted"
    }
}

/// Two sequences holding the same items, each as often, still do so after the
/// same map is applied to each item.
proof fn lemma_map_keeps_multiset<A, B>(a: Seq<A>, b: Seq<A>, f: spec_fn(A) -> B)
    requires
        a.to_multiset() == b.to_multiset(),
    ensures
        a.map_values(f).to_multiset() == b.map_values(f).to_multiset(),
    decreases a.len(),
{
    broadcast use {
        vstd::seq_lib::group_to_multiset_ensures,
        vstd::multiset::group_multiset_axioms,
        vstd::multiset::group_multiset_properties,
    };

    if a.len() == 0 {
        assert(b.to_multiset().len() == 0);
        assert(b.len() == 0);
        assert(a.map_values(f) =~= Seq::<B>::empty());
        assert(b.map_values(f) =~= Seq::<B>::empty());
    } else {
        let x = a.last();
        let a0 = a.drop_last();
        assert(a =~= a0.push(x));
        assert(a.to_multiset() == a0.to_multiset().insert(x));
        assert(b.to_multiset().count(x) > 0);
        assert(b.contains(x));
        let i = choose|i: int| 0 <= i < b.len() && b[i] == x;
        let b0 = b.remove(i);
        assert(b0.to_multiset() == b.to_multiset().remove(x));
        assert(b0.to_multiset() =~= a0.to_multiset());
        lemma_map_keeps_multiset(a0, b0, f);
        assert(a.map_values(f) =~= a0.map_values(f).push(f(x)));
        assert(b.map_values(f) =~= b0.map_values(f).insert(i, f(x)));
        assert(b.map_values(f).to_multiset() == b0.map_values(f).to_multiset().insert(f(x)));
        assert(a.map_values(f).to_multiset() == a0.map_values(f).to_multiset().insert(f(x)));
    }
}

/// An answer is taken exactly when it goes to the caller's own attempt, still in
/// progress and not past its deadline, for a question of that attempt.
pub proof fn law_answer_taken_exactly_when(
    attempt: Option<AttemptRow>,
    user_id: u128,
    now: i64,
    question_in_attempt: bool,
)
    ensures
        answer_refusal(attempt, user_id, now, question_in_attempt) is None <==> (attempt matches Some(a)
            && a.student_user_id == user_id && a.status@ == "in_progress"@ && now <= a.deadline_at
            && question_in_attempt),
        attempt matches Some(a) && a.student_user_id != user_id ==> answer_refusal(
            attempt,
            user_id,
            now,
            question_in_attempt,
        ) == Some((ErrorKind::Forbidden, "not your attempt"@)),
{
}

/// An attempt is handed in exactly once, by its own student: only while it is
/// in progress; another caller is refused, and so is a second hand-in.
pub proof fn law_hand_in_exactly_when(attempt: Option<(u128, String)>, user_id: u128)
    ensures
        hand_in_refusal(attempt, user_id) is None <==> (attempt matches Some((student, status))
            && student == user_id && status@ == "in_progress"@),
        attempt matches Some((student, status)) && student == user_id && status@ != "in_progress"@
            ==> hand_in_refusal(attempt, user_id) == Some(
            (ErrorKind::BadRequest, "already submitted"@),
        ),
{
}

} // verus!
