//! Automatic grading of exam answers against a question's answer key.
use vstd::prelude::*;
use crate::json::{JsonValue, views};
use crate::text::{str_eq, trim, trim_lower, unicode_lowercase};

verus! {

/// Outcome of automatic grading.
pub enum AutoGrade {
    /// Graded: whether the answer is correct and the marks it earns.
    Graded { is_correct: bool, marks: i32 },
    /// Not gradable automatically: an essay, an unknown question type, or an
    /// answer key or answer that lacks what the question type reads.
    NotGradable,
    /// A numeric question: graded by comparing floating-point values, which the
    /// library leaves to its caller.
    Numeric,
}

/// All-or-nothing scoring: full marks when correct, none otherwise.
pub open spec fn graded(ok: bool, max_marks: i32) -> AutoGrade {
    AutoGrade::Graded { is_correct: ok, marks: if ok { max_marks } else { 0 } }
}

/// Text normalised for comparison: trimmed, then lowercased.
pub open spec fn normalized(s: Seq<char>) -> Seq<char> {
    unicode_lowercase(trim(s))
}

/// Whether some accepted answer matches the student's text after normalisation.
pub open spec fn any_accepted(accepted: Seq<Seq<char>>, student: Seq<char>) -> bool {
    exists|i: int| 0 <= i < accepted.len() && normalized(#[trigger] accepted[i]) == normalized(student)
}

/// Whether the blanks match pairwise after normalisation (equal counts assumed).
pub open spec fn blanks_match(correct: Seq<Seq<char>>, student: Seq<Seq<char>>) -> bool {
    forall|i: int| 0 <= i < correct.len() ==> normalized(#[trigger] correct[i]) == normalized(student[i])
}

/// The grade the library gives an answer.
pub open spec fn spec_auto_grade(
    question_type: Seq<char>,
    correct: JsonValue,
    student: JsonValue,
    max_marks: i32,
) -> AutoGrade {
    if question_type == "multiple_choice_single"@ {
        match (correct.text_field("option_id"@), student.text_field("option_id"@)) {
            (Some(c), Some(s)) => graded(c == s, max_marks),
            _ => AutoGrade::NotGradable,
        }
    } else if question_type == "multiple_choice_multi"@ {
        match (correct.text_list_field("option_ids"@), student.text_list_field("option_ids"@)) {
            (Some(c), Some(s)) => graded(c.to_set() == s.to_set(), max_marks),
            _ => AutoGrade::NotGradable,
        }
    } else if question_type == "true_false"@ {
        match (correct.bool_field("answer"@), student.bool_field("answer"@)) {
            (Some(c), Some(s)) => graded(c == s, max_marks),
            _ => AutoGrade::NotGradable,
        }
    } else if question_type == "short_answer"@ {
        match (correct.text_list_field("accepted"@), student.text_field("text"@)) {
            (Some(a), Some(s)) => graded(any_accepted(a, s), max_marks),
            _ => AutoGrade::NotGradable,
        }
    } else if question_type == "numeric"@ {
        AutoGrade::Numeric
    } else if question_type == "fill_in_the_blanks"@ {
        match (correct.text_list_field("blanks"@), student.text_list_field("blanks"@)) {
            (Some(c), Some(s)) => if c.len() != s.len() {
                graded(false, max_marks)
            } else {
                graded(blanks_match(c, s), max_marks)
            },
            _ => AutoGrade::NotGradable,
        }
    } else {
        AutoGrade::NotGradable
    }
}

/// Whether two lists hold the same set of texts.
fn same_text_set(a: &Vec<String>, b: &Vec<String>) -> (r: bool)
    ensures
        r == (views(a@).to_set() == views(b@).to_set()),
{
    let ghost va = views(a@);
    let ghost vb = views(b@);
    let mut i: usize = 0;
    while i < a.len()
        invariant
            va == views(a@),
            vb == views(b@),
            i <= a@.len(),
            forall|k: int| 0 <= k < i ==> vb.contains(#[trigger] va[k]),
        decreases a.len() - i,
    {
        if !text_in(&a[i], b) {
            assert(va.to_set().contains(va[i as int]));
            assert(!vb.to_set().contains(va[i as int]));
            return false;
        }
        i = i + 1;
    }
    let mut j: usize = 0;
    while j < b.len()
        invariant
            va == views(a@),
            vb == views(b@),
            j <= b@.len(),
            forall|k: int| 0 <= k < a@.len() ==> vb.contains(#[trigger] va[k]),
            forall|k: int| 0 <= k < j ==> va.contains(#[trigger] vb[k]),
        decreases b.len() - j,
    {
        if !text_in(&b[j], a) {
            assert(vb.to_set().contains(vb[j as int]));
            assert(!va.to_set().contains(vb[j as int]));
            return false;
        }
        j = j + 1;
    }
    assert(va.to_set() =~= vb.to_set()) by {
        assert forall|x: Seq<char>| va.to_set().contains(x) implies vb.to_set().contains(x) by {
            let k = choose|k: int| 0 <= k < va.len() && va[k] == x;
            assert(vb.contains(va[k]));
        }
        assert forall|x: Seq<char>| vb.to_set().contains(x) implies va.to_set().contains(x) by {
            let k = choose|k: int| 0 <= k < vb.len() && vb[k] == x;
            assert(va.contains(vb[k]));
        }
    }
    true
}

/// Whether the text `s` occurs in the list `l`.
fn text_in(s: &String, l: &Vec<String>) -> (r: bool)
    ensures
        r == views(l@).contains(s@),
{
    let mut i: usize = 0;
    while i < l.len()
        invariant
            i <= l@.len(),
            forall|k: int| 0 <= k < i ==> views(l@)[k] != s@,
        decreases l.len() - i,
    {
        if str_eq(l[i].as_str(), s.as_str()) {
            assert(views(l@)[i as int] == s@);
            return true;
        }
        i = i + 1;
    }
    false
}

/// Whether some accepted answer matches the student's text after normalisation.
fn any_accepted_exec(accepted: &Vec<String>, student: &String) -> (r: bool)
    ensures
        r == any_accepted(views(accepted@), student@),
{
    let target = trim_lower(student.as_str());
    let mut i: usize = 0;
    while i < accepted.len()
        invariant
            i <= accepted@.len(),
            target@ == normalized(student@),
            forall|k: int| 0 <= k < i ==> normalized(views(accepted@)[k]) != normalized(student@),
        decreases accepted.len() - i,
    {
        let cand = trim_lower(accepted[i].as_str());
        if str_eq(cand.as_str(), target.as_str()) {
            assert(normalized(views(accepted@)[i as int]) == normalized(student@));
            return true;
        }
        i = i + 1;
    }
    false
}

/// Whether equally long blank lists match pairwise after normalisation.
fn blanks_match_exec(correct: &Vec<String>, student: &Vec<String>) -> (r: bool)
    requires
        correct@.len() == student@.len(),
    ensures
        r == blanks_match(views(correct@), views(student@)),
{
    let mut i: usize = 0;
    while i < correct.len()
        invariant
            correct@.len() == student@.len(),
            i <= correct@.len(),
            forall|k: int|
                0 <= k < i ==> normalized(#[trigger] views(correct@)[k]) == normalized(
                    views(student@)[k],
                ),
        decreases correct.len() - i,
    {
        let c = trim_lower(correct[i].as_str());
        let s = trim_lower(student[i].as_str());
        if !str_eq(c.as_str(), s.as_str()) {
            assert(views(correct@)[i as int] == correct@[i as int]@);
            assert(views(student@)[i as int] == student@[i as int]@);
            return false;
        }
        i = i + 1;
    }
    true
}

fn grade(ok: bool, max_marks: i32) -> (r: AutoGrade)
    ensures
        r == graded(ok, max_marks),
{
    AutoGrade::Graded { is_correct: ok, marks: if ok { max_marks } else { 0 } }
}

/// Grades an answer automatically, by question type: the answer key and the
/// answer are compared field by field, and a correct answer earns `max_marks`,
/// an incorrect one nothing.
pub fn auto_grade(
    question_type: &str,
    correct_answer: &JsonValue,
    student_answer: &JsonValue,
    max_marks: i32,
) -> (r: AutoGrade)
    ensures
        r == spec_auto_grade(question_type@, *correct_answer, *student_answer, max_marks),
{
    if str_eq(question_type, "multiple_choice_single") {
        match (correct_answer.text_field_of("option_id"), student_answer.text_field_of("option_id")) {
            (Some(c), Some(s)) => grade(str_eq(c.as_str(), s.as_str()), max_marks),
            _ => AutoGrade::NotGradable,
        }
    } else if str_eq(question_type, "multiple_choice_multi") {
        match (
            correct_answer.text_list_field_of("option_ids"),
            student_answer.text_list_field_of("option_ids"),
        ) {
            (Some(c), Some(s)) => grade(same_text_set(&c, &s), max_marks),
            _ => AutoGrade::NotGradable,
        }
    } else if str_eq(question_type, "true_false") {
        match (correct_answer.bool_field_of("answer"), student_answer.bool_field_of("answer")) {
            (Some(c), Some(s)) => grade(c == s, max_marks),
            _ => AutoGrade::NotGradable,
        }
    } else if str_eq(question_type, "short_answer") {
        match (correct_answer.text_list_field_of("accepted"), student_answer.text_field_of("text")) {
            (Some(a), Some(s)) => grade(any_accepted_exec(&a, s), max_marks),
            _ => AutoGrade::NotGradable,
        }
    } else if str_eq(question_type, "numeric") {
        AutoGrade::Numeric
    } else if str_eq(question_type, "fill_in_the_blanks") {
        match (correct_answer.text_list_field_of("blanks"), student_answer.text_list_field_of("blanks")) {
            (Some(c), Some(s)) => {
                if c.len() != s.len() {
                    grade(false, max_marks)
                } else {
                    grade(blanks_match_exec(&c, &s), max_marks)
                }
            },
            _ => AutoGrade::NotGradable,
        }
    } else {
        AutoGrade::NotGradable
    }
}

/// Scoring is all-or-nothing: whenever an answer is graded automatically, it
/// earns `max_marks` exactly when it is correct and nothing otherwise.
pub proof fn law_all_or_nothing(
    question_type: Seq<char>,
    correct: JsonValue,
    student: JsonValue,
    max_marks: i32,
)
    ensures
        spec_auto_grade(question_type, correct, student, max_marks) matches AutoGrade::Graded {
            is_correct,
            marks,
        } ==> (is_correct ==> marks == max_marks) && (!is_correct ==> marks == 0),
{
}

/// A multiple-choice-multi answer is graded by the set of option ids it names:
/// two answers naming the same ids, in any order and with any repetition, get the
/// same grade.
pub proof fn law_multi_choice_ignores_order(
    correct: JsonValue,
    student_a: JsonValue,
    student_b: JsonValue,
    max_marks: i32,
)
    requires
        student_a.text_list_field("option_ids"@) matches Some(a) && student_b.text_list_field(
            "option_ids"@,
        ) matches Some(b) && a.to_set() == b.to_set(),
    ensures
        spec_auto_grade("multiple_choice_multi"@, correct, student_a, max_marks) == spec_auto_grade(
            "multiple_choice_multi"@,
            correct,
            student_b,
            max_marks,
        ),
{
    assert("multiple_choice_multi"@ != "multiple_choice_single"@) by {
        reveal_strlit("multiple_choice_single");
        reveal_strlit("multiple_choice_multi");
        assert("multiple_choice_multi"@.len() == 21);
        assert("multiple_choice_single"@.len() == 22);
    }
    reveal_strlit("multiple_choice_single");
    reveal_strlit("multiple_choice_multi");
    reveal_strlit("true_false");
    reveal_strlit("short_answer");
    reveal_strlit("numeric");
    reveal_strlit("fill_in_the_blanks");
}

/// A fill-in-the-blanks answer with a different number of blanks than the key is
/// graded incorrect and earns nothing.
pub proof fn law_blank_count_mismatch_fails(correct: JsonValue, student: JsonValue, max_marks: i32)
    requires
        correct.text_list_field("blanks"@) matches Some(c) && student.text_list_field(
            "blanks"@,
        ) matches Some(s) && c.len() != s.len(),
    ensures
        spec_auto_grade("fill_in_the_blanks"@, correct, student, max_marks) == (AutoGrade::Graded {
            is_correct: false,
            marks: 0,
        }),
{
    reveal_strlit("multiple_choice_single");
    reveal_strlit("multiple_choice_multi");
    reveal_strlit("true_false");
    reveal_strlit("short_answer");
    reveal_strlit("numeric");
    reveal_strlit("fill_in_the_blanks");
    assert("multiple_choice_single"@.len() == 22);
    assert("multiple_choice_multi"@.len() == 21);
    assert("true_false"@.len() == 10);
    assert("short_answer"@.len() == 12);
    assert("numeric"@.len() == 7);
    assert("fill_in_the_blanks"@.len() == 18);
}

/// A true/false answer is correct exactly when its boolean equals the key's,
/// whichever boolean that is, and then earns full marks; otherwise it earns
/// nothing.
pub proof fn law_true_false_matches_key(correct: JsonValue, student: JsonValue, max_marks: i32)
    requires
        correct.bool_field("answer"@) is Some,
        student.bool_field("answer"@) is Some,
    ensures
        correct.bool_field("answer"@) == student.bool_field("answer"@) ==> spec_auto_grade(
            "true_false"@,
            correct,
            student,
            max_marks,
        ) == (AutoGrade::Graded { is_correct: true, marks: max_marks }),
        correct.bool_field("answer"@) != student.bool_field("answer"@) ==> spec_auto_grade(
            "true_false"@,
            correct,
            student,
            max_marks,
        ) == (AutoGrade::Graded { is_correct: false, marks: 0 }),
{
    reveal_strlit("multiple_choice_single");
    reveal_strlit("multiple_choice_multi");
    reveal_strlit("true_false");
    reveal_strlit("short_answer");
    reveal_strlit("numeric");
    reveal_strlit("fill_in_the_blanks");
    assert("multiple_choice_single"@.len() == 22);
    assert("multiple_choice_multi"@.len() == 21);
    assert("true_false"@.len() == 10);
    assert("short_answer"@.len() == 12);
    assert("numeric"@.len() == 7);
    assert("fill_in_the_blanks"@.len() == 18);
}

/// A single-choice answer is correct exactly when it names the key's option,
/// and then earns full marks; otherwise it earns nothing.
pub proof fn law_single_choice_matches_key(correct: JsonValue, student: JsonValue, max_marks: i32)
    requires
        correct.text_field("option_id"@) is Some,
        student.text_field("option_id"@) is Some,
    ensures
        correct.text_field("option_id"@) == student.text_field("option_id"@) ==> spec_auto_grade(
            "multiple_choice_single"@,
            correct,
            student,
            max_marks,
        ) == (AutoGrade::Graded { is_correct: true, marks: max_marks }),
        correct.text_field("option_id"@) != student.text_field("option_id"@) ==> spec_auto_grade(
            "multiple_choice_single"@,
            correct,
            student,
            max_marks,
        ) == (AutoGrade::Graded { is_correct: false, marks: 0 }),
{
    reveal_strlit("multiple_choice_single");
    reveal_strlit("multiple_choice_multi");
    reveal_strlit("true_false");
    reveal_strlit("short_answer");
    reveal_strlit("numeric");
    reveal_strlit("fill_in_the_blanks");
    assert("multiple_choice_single"@.len() == 22);
    assert("multiple_choice_multi"@.len() == 21);
    assert("true_false"@.len() == 10);
    assert("short_answer"@.len() == 12);
    assert("numeric"@.len() == 7);
    assert("fill_in_the_blanks"@.len() == 18);
}

/// A multiple-choice-multi answer naming exactly the key's set of options is
/// correct with full marks; naming another set earns nothing.
pub proof fn law_multi_choice_matches_key(correct: JsonValue, student: JsonValue, max_marks: i32)
    requires
        correct.text_list_field("option_ids"@) is Some,
        student.text_list_field("option_ids"@) is Some,
    ensures
        correct.text_list_field("option_ids"@)->0.to_set() == student.text_list_field(
            "option_ids"@,
        )->0.to_set() ==> spec_auto_grade("multiple_choice_multi"@, correct, student, max_marks)
            == (AutoGrade::Graded { is_correct: true, marks: max_marks }),
        correct.text_list_field("option_ids"@)->0.to_set() != student.text_list_field(
            "option_ids"@,
        )->0.to_set() ==> spec_auto_grade("multiple_choice_multi"@, correct, student, max_marks)
            == (AutoGrade::Graded { is_correct: false, marks: 0 }),
{
    reveal_strlit("multiple_choice_single");
    reveal_strlit("multiple_choice_multi");
    reveal_strlit("true_false");
    reveal_strlit("short_answer");
    reveal_strlit("numeric");
    reveal_strlit("fill_in_the_blanks");
    assert("multiple_choice_single"@.len() == 22);
    assert("multiple_choice_multi"@.len() == 21);
    assert("true_false"@.len() == 10);
    assert("short_answer"@.len() == 12);
    assert("numeric"@.len() == 7);
    assert("fill_in_the_blanks"@.len() == 18);
}

/// A short answer is correct with full marks when, trimmed and lowercased, it
/// equals one of the accepted answers likewise normalised; otherwise it earns
/// nothing.
pub proof fn law_short_answer_matches_key(correct: JsonValue, student: JsonValue, max_marks: i32)
    requires
        correct.text_list_field("accepted"@) is Some,
        student.text_field("text"@) is Some,
    ensures
        ({
            let a = correct.text_list_field("accepted"@)->0;
            let t = student.text_field("text"@)->0;
            &&& (exists|i: int| 0 <= i < a.len() && unicode_lowercase(trim(a[i])) == unicode_lowercase(trim(t)))
                ==> spec_auto_grade("short_answer"@, correct, student, max_marks) == (AutoGrade::Graded {
                is_correct: true,
                marks: max_marks,
            })
            &&& (forall|i: int| 0 <= i < a.len() ==> unicode_lowercase(trim(a[i])) != unicode_lowercase(trim(t)))
                ==> spec_auto_grade("short_answer"@, correct, student, max_marks) == (AutoGrade::Graded {
                is_correct: false,
                marks: 0,
            })
        }),
{
    reveal_strlit("multiple_choice_single");
    reveal_strlit("multiple_choice_multi");
    reveal_strlit("true_false");
    reveal_strlit("short_answer");
    reveal_strlit("numeric");
    reveal_strlit("fill_in_the_blanks");
    assert("multiple_choice_single"@.len() == 22);
    assert("multiple_choice_multi"@.len() == 21);
    assert("true_false"@.len() == 10);
    assert("short_answer"@.len() == 12);
    assert("numeric"@.len() == 7);
    assert("fill_in_the_blanks"@.len() == 18);
}

/// Fill-in-the-blanks with as many blanks as the key is correct with full marks
/// exactly when every blank, trimmed and lowercased, equals the key's blank at
/// the same place; otherwise it earns nothing.
pub proof fn law_blanks_match_key(correct: JsonValue, student: JsonValue, max_marks: i32)
    requires
        correct.text_list_field("blanks"@) is Some,
        student.text_list_field("blanks"@) is Some,
        correct.text_list_field("blanks"@)->0.len() == student.text_list_field("blanks"@)->0.len(),
    ensures
        ({
            let c = correct.text_list_field("blanks"@)->0;
            let s = student.text_list_field("blanks"@)->0;
            &&& (forall|i: int| 0 <= i < c.len() ==> unicode_lowercase(trim(c[i])) == unicode_lowercase(trim(s[i])))
                ==> spec_auto_grade("fill_in_the_blanks"@, correct, student, max_marks) == (AutoGrade::Graded {
                is_correct: true,
                marks: max_marks,
            })
            &&& (exists|i: int| 0 <= i < c.len() && unicode_lowercase(trim(c[i])) != unicode_lowercase(trim(s[i])))
                ==> spec_auto_grade("fill_in_the_blanks"@, correct, student, max_marks) == (AutoGrade::Graded {
                is_correct: false,
                marks: 0,
            })
        }),
{
    reveal_strlit("multiple_choice_single");
    reveal_strlit("multiple_choice_multi");
    reveal_strlit("true_false");
    reveal_strlit("short_answer");
    reveal_strlit("numeric");
    reveal_strlit("fill_in_the_blanks");
    assert("multiple_choice_single"@.len() == 22);
    assert("multiple_choice_multi"@.len() == 21);
    assert("true_false"@.len() == 10);
    assert("short_answer"@.len() == 12);
    assert("numeric"@.len() == 7);
    assert("fill_in_the_blanks"@.len() == 18);
}

/// Numeric questions are left to the caller's floating-point comparison, and a
/// question of a type the grader does not know (an essay among them) is never
/// graded automatically.
pub proof fn law_numeric_and_unknown_types(
    question_type: Seq<char>,
    correct: JsonValue,
    student: JsonValue,
    max_marks: i32,
)
    ensures
        spec_auto_grade("numeric"@, correct, student, max_marks) == AutoGrade::Numeric,
        question_type != "multiple_choice_single"@ && question_type != "multiple_choice_multi"@
            && question_type != "true_false"@ && question_type != "short_answer"@ && question_type
            != "numeric"@ && question_type != "fill_in_the_blanks"@ ==> spec_auto_grade(
            question_type,
            correct,
            student,
            max_marks,
        ) == AutoGrade::NotGradable,
        spec_auto_grade("true_false"@, correct, student, max_marks) is Graded ==> correct.bool_field(
            "answer"@,
        ) is Some && student.bool_field("answer"@) is Some,
{
    reveal_strlit("multiple_choice_single");
    reveal_strlit("multiple_choice_multi");
    reveal_strlit("true_false");
    reveal_strlit("short_answer");
    reveal_strlit("numeric");
    reveal_strlit("fill_in_the_blanks");
    assert("multiple_choice_single"@.len() == 22);
    assert("multiple_choice_multi"@.len() == 21);
    assert("true_false"@.len() == 10);
    assert("short_answer"@.len() == 12);
    assert("numeric"@.len() == 7);
    assert("fill_in_the_blanks"@.len() == 18);
}

} // verus!
