//! The background jobs the service queues, and the names they are queued under.
//! Times are nanoseconds since the Unix epoch.
use vstd::prelude::*;
use crate::json::JsonValue;

verus! {

#[allow(inconsistent_fields)]
pub enum JobPayload {
    /// An e-mail to send.
    SendEmail { to: String, subject: String, template: String, vars: JsonValue },
    /// A push notification to send.
    SendPushNotification { user_id: u128, title: String, body: String, data: JsonValue },
    /// The occurrences of a recurring class within a window, to be written out.
    MaterializeClassOccurrences { class_id: u128, from: i64, to: i64 },
    /// An exam attempt past its deadline, to be handed in.
    AutoSubmitExpiredAttempt { attempt_id: u128 },
    /// The welcome messages of a new student.
    StudentWelcomeSequence { workspace_id: u128, user_id: u128 },
    /// A workspace's monthly subscription, to be charged.
    ChargeMonthlySubscription { workspace_id: u128 },
    /// A note to summarise.
    GenerateNoteSummary { note_id: u128 },
    /// A finished attempt to analyse.
    GenerateExamAnalytics { attempt_id: u128 },
    /// A payment to check against the payment provider.
    ReconcilePayment { payment_id: u128 },
    /// The nightly removal of expired invitations, sessions and tokens.
    NightlyCleanup,
}

impl JobPayload {
    /// The name a job is queued under.
    pub open spec fn spec_job_type(self) -> Seq<char> {
        match self {
            JobPayload::SendEmail { .. } => "send_email"@,
            JobPayload::SendPushNotification { .. } => "send_push_notification"@,
            JobPayload::MaterializeClassOccurrences { .. } => "materialize_class_occurrences"@,
            JobPayload::AutoSubmitExpiredAttempt { .. } => "auto_submit_expired_attempt"@,
            JobPayload::StudentWelcomeSequence { .. } => "student_welcome_sequence"@,
            JobPayload::ChargeMonthlySubscription { .. } => "charge_monthly_subscription"@,
            JobPayload::GenerateNoteSummary { .. } => "generate_note_summary"@,
            JobPayload::GenerateExamAnalytics { .. } => "generate_exam_analytics"@,
            JobPayload::ReconcilePayment { .. } => "reconcile_payment"@,
            JobPayload::NightlyCleanup => "nightly_cleanup"@,
        }
    }

    pub fn job_type(&self) -> (r: &'static str)
        ensures
            r@ == self.spec_job_type(),
    {
        match self {
            JobPayload::SendEmail { .. } => "send_email",
            JobPayload::SendPushNotification { .. } => "send_push_notification",
            JobPayload::MaterializeClassOccurrences { .. } => "materialize_class_occurrences",
            JobPayload::AutoSubmitExpiredAttempt { .. } => "auto_submit_expired_attempt",
            JobPayload::StudentWelcomeSequence { .. } => "student_welcome_sequence",
            JobPayload::ChargeMonthlySubscription { .. } => "charge_monthly_subscription",
            JobPayload::GenerateNoteSummary { .. } => "generate_note_summary",
            JobPayload::GenerateExamAnalytics { .. } => "generate_exam_analytics",
            JobPayload::ReconcilePayment { .. } => "reconcile_payment",
            JobPayload::NightlyCleanup => "nightly_cleanup",
        }
    }
}

/// The time a job is queued to run: the time asked for, else now.
pub fn run_time(asked: Option<i64>, now: i64) -> (r: i64)
    ensures
        r == match asked {
            Some(t) => t,
            None => now,
        },
{
    match asked {
        Some(t) => t,
        None => now,
    }
}

} // verus!
