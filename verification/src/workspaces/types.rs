//! Roles in a workspace, how a workspace takes payments, and the onboarding
//! messages new students receive.
use vstd::prelude::*;
use crate::text::str_eq;

verus! {

#[derive(PartialEq, Eq, Structural, Clone, Copy)]
pub enum WorkspaceRole {
    Proprietor,
    Admin,
    Tutor,
    Student,
}

impl WorkspaceRole {
    pub open spec fn admin_or_above(self) -> bool {
        self is Proprietor || self is Admin
    }

    pub open spec fn tutor_or_above(self) -> bool {
        self is Proprietor || self is Admin || self is Tutor
    }

    /// The stored name of a role.
    pub open spec fn spec_name(self) -> Seq<char> {
        match self {
            WorkspaceRole::Proprietor => "proprietor"@,
            WorkspaceRole::Admin => "admin"@,
            WorkspaceRole::Tutor => "tutor"@,
            WorkspaceRole::Student => "student"@,
        }
    }

    /// The role a stored name denotes.
    pub open spec fn from_spec_name(s: Seq<char>) -> Option<WorkspaceRole> {
        if s == "proprietor"@ {
            Some(WorkspaceRole::Proprietor)
        } else if s == "admin"@ {
            Some(WorkspaceRole::Admin)
        } else if s == "tutor"@ {
            Some(WorkspaceRole::Tutor)
        } else if s == "student"@ {
            Some(WorkspaceRole::Student)
        } else {
            None
        }
    }

    pub fn is_admin_or_above(&self) -> (r: bool)
        ensures
            r == self.admin_or_above(),
    {
        match self {
            WorkspaceRole::Proprietor | WorkspaceRole::Admin => true,
            _ => false,
        }
    }

    pub fn is_tutor_or_above(&self) -> (r: bool)
        ensures
            r == self.tutor_or_above(),
    {
        match self {
            WorkspaceRole::Proprietor | WorkspaceRole::Admin | WorkspaceRole::Tutor => true,
            _ => false,
        }
    }

    pub fn name(&self) -> (r: &'static str)
        ensures
            r@ == self.spec_name(),
    {
        match self {
            WorkspaceRole::Proprietor => "proprietor",
            WorkspaceRole::Admin => "admin",
            WorkspaceRole::Tutor => "tutor",
            WorkspaceRole::Student => "student",
        }
    }

    pub fn from_name(s: &str) -> (r: Option<WorkspaceRole>)
        ensures
            r == WorkspaceRole::from_spec_name(s@),
    {
        if str_eq(s, "proprietor") {
            Some(WorkspaceRole::Proprietor)
        } else if str_eq(s, "admin") {
            Some(WorkspaceRole::Admin)
        } else if str_eq(s, "tutor") {
            Some(WorkspaceRole::Tutor)
        } else if str_eq(s, "student") {
            Some(WorkspaceRole::Student)
        } else {
            None
        }
    }
}

/// Every administrator is also at least a tutor.
pub proof fn law_admin_is_tutor(r: WorkspaceRole)
    ensures
        r.admin_or_above() ==> r.tutor_or_above(),
{
}

/// A role's stored name reads back as the same role.
pub proof fn law_role_name_round_trip(r: WorkspaceRole)
    ensures
        WorkspaceRole::from_spec_name(r.spec_name()) == Some(r),
{
    reveal_strlit("proprietor");
    reveal_strlit("admin");
    reveal_strlit("tutor");
    reveal_strlit("student");
    assert("proprietor"@.len() == 10);
    assert("admin"@.len() == 5);
    assert("tutor"@.len() == 5);
    assert("student"@.len() == 7);
    assert("admin"@[0] != "tutor"@[0]);
}

#[derive(PartialEq, Eq, Structural, Clone, Copy)]
pub enum PaymentMode {
    LektaManaged,
    External,
    Hybrid,
}

impl PaymentMode {
    pub open spec fn spec_name(self) -> Seq<char> {
        match self {
            PaymentMode::LektaManaged => "lekta_managed"@,
            PaymentMode::External => "external"@,
            PaymentMode::Hybrid => "hybrid"@,
        }
    }

    pub open spec fn from_spec_name(s: Seq<char>) -> Option<PaymentMode> {
        if s == "lekta_managed"@ {
            Some(PaymentMode::LektaManaged)
        } else if s == "external"@ {
            Some(PaymentMode::External)
        } else if s == "hybrid"@ {
            Some(PaymentMode::Hybrid)
        } else {
            None
        }
    }

    pub fn name(&self) -> (r: &'static str)
        ensures
            r@ == self.spec_name(),
    {
        match self {
            PaymentMode::LektaManaged => "lekta_managed",
            PaymentMode::External => "external",
            PaymentMode::Hybrid => "hybrid",
        }
    }

    pub fn from_name(s: &str) -> (r: Option<PaymentMode>)
        ensures
            r == PaymentMode::from_spec_name(s@),
    {
        if str_eq(s, "lekta_managed") {
            Some(PaymentMode::LektaManaged)
        } else if str_eq(s, "external") {
            Some(PaymentMode::External)
        } else if str_eq(s, "hybrid") {
            Some(PaymentMode::Hybrid)
        } else {
            None
        }
    }
}

pub enum OnboardingStep {
    WelcomeMessage { title: String, content: String, delay_hours: u32 },
    TutorIntroductions { delay_hours: u32 },
    ChannelTour { channel_slugs: Vec<String>, delay_hours: u32 },
    EnrollmentReminder { delay_hours: u32 },
    FirstClassREminder { delay_hours: u32 },
    Custom { title: String, content: String, delay_hours: u32 },
}

/// A welcome message with the given title, content and delay.
pub open spec fn is_welcome(
    s: OnboardingStep,
    title: Seq<char>,
    content: Seq<char>,
    delay: u32,
) -> bool {
    s matches OnboardingStep::WelcomeMessage { title: t, content: c, delay_hours: d } && t@
        == title && c@ == content && d == delay
}

/// The onboarding sequence a workspace named `workspace_name` gets when it
/// names none: a welcome at once, tutor introductions after a day, an
/// enrollment reminder after three days and a check-in after a week.
pub open spec fn is_default_sequence(steps: Seq<OnboardingStep>, workspace_name: Seq<char>) -> bool {
    &&& steps.len() == 4
    &&& is_welcome(
        steps[0],
        "welcome to "@ + workspace_name,
        "We are glad to have you. Take a moment to look around - your tutors are here to help you succeed."@,
        0,
    )
    &&& steps[1] matches OnboardingStep::TutorIntroductions { delay_hours } && delay_hours == 24
    &&& steps[2] matches OnboardingStep::EnrollmentReminder { delay_hours } && delay_hours == 72
    &&& is_welcome(
        steps[3],
        "How is your first week going?"@,
        "If you need anything at all, your tutors and admins are here to help. Reply in #general anytime."@,
        168,
    )
}

impl OnboardingStep {
    /// The default onboarding sequence for a workspace named `workspace_name`.
    pub fn default_sequence(workspace_name: &str) -> (r: Vec<OnboardingStep>)
        ensures
            is_default_sequence(r@, workspace_name@),
    {
        let mut title = String::from_str("welcome to ");
        title.append(workspace_name);
        let mut v: Vec<OnboardingStep> = Vec::new();
        v.push(
            OnboardingStep::WelcomeMessage {
                title,
                content: String::from_str(
                    "We are glad to have you. Take a moment to look around - your tutors are here to help you succeed.",
                ),
                delay_hours: 0,
            },
        );
        v.push(OnboardingStep::TutorIntroductions { delay_hours: 24 });
        v.push(OnboardingStep::EnrollmentReminder { delay_hours: 72 });
        v.push(
            OnboardingStep::WelcomeMessage {
                title: String::from_str("How is your first week going?"),
                content: String::from_str(
                    "If you need anything at all, your tutors and admins are here to help. Reply in #general anytime.",
                ),
                delay_hours: 168,
            },
        );
        v
    }
}

} // verus!
