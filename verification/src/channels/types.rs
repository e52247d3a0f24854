//! What a channel is for, who sees it and who may post in it, with the names
//! these are stored and sent under.
use vstd::prelude::*;
use crate::text::str_eq;

verus! {

#[derive(PartialEq, Eq, Structural, Clone, Copy)]
pub enum ChannelType {
    Subject,
    Announcement,
    General,
}

#[derive(PartialEq, Eq, Structural, Clone, Copy)]
pub enum Visibility {
    Public,
    Private,
}

#[derive(PartialEq, Eq, Structural, Clone, Copy)]
pub enum PostPermission {
    Everyone,
    TutorsAndAdmins,
    AdminsOnly,
}

impl ChannelType {
    pub open spec fn spec_name(self) -> Seq<char> {
        match self {
            ChannelType::Subject => "subject"@,
            ChannelType::Announcement => "announcement"@,
            ChannelType::General => "general"@,
        }
    }

    pub open spec fn from_spec_name(s: Seq<char>) -> Option<ChannelType> {
        if s == "subject"@ {
            Some(ChannelType::Subject)
        } else if s == "announcement"@ {
            Some(ChannelType::Announcement)
        } else if s == "general"@ {
            Some(ChannelType::General)
        } else {
            None
        }
    }

    pub fn name(&self) -> (r: &'static str)
        ensures
            r@ == self.spec_name(),
    {
        match self {
            ChannelType::Subject => "subject",
            ChannelType::Announcement => "announcement",
            ChannelType::General => "general",
        }
    }

    pub fn from_name(s: &str) -> (r: Option<ChannelType>)
        ensures
            r == ChannelType::from_spec_name(s@),
    {
        if str_eq(s, "subject") {
            Some(ChannelType::Subject)
        } else if str_eq(s, "announcement") {
            Some(ChannelType::Announcement)
        } else if str_eq(s, "general") {
            Some(ChannelType::General)
        } else {
            None
        }
    }
}

impl Visibility {
    pub open spec fn spec_name(self) -> Seq<char> {
        match self {
            Visibility::Public => "public"@,
            Visibility::Private => "private"@,
        }
    }

    pub open spec fn from_spec_name(s: Seq<char>) -> Option<Visibility> {
        if s == "public"@ {
            Some(Visibility::Public)
        } else if s == "private"@ {
            Some(Visibility::Private)
        } else {
            None
        }
    }

    pub fn name(&self) -> (r: &'static str)
        ensures
            r@ == self.spec_name(),
    {
        match self {
            Visibility::Public => "public",
            Visibility::Private => "private",
        }
    }

    pub fn from_name(s: &str) -> (r: Option<Visibility>)
        ensures
            r == Visibility::from_spec_name(s@),
    {
        if str_eq(s, "public") {
            Some(Visibility::Public)
        } else if str_eq(s, "private") {
            Some(Visibility::Private)
        } else {
            None
        }
    }
}

impl PostPermission {
    pub open spec fn spec_name(self) -> Seq<char> {
        match self {
            PostPermission::Everyone => "everyone"@,
            PostPermission::TutorsAndAdmins => "tutors_and_admins"@,
            PostPermission::AdminsOnly => "admins_only"@,
        }
    }

    pub open spec fn from_spec_name(s: Seq<char>) -> Option<PostPermission> {
        if s == "everyone"@ {
            Some(PostPermission::Everyone)
        } else if s == "tutors_and_admins"@ {
            Some(PostPermission::TutorsAndAdmins)
        } else if s == "admins_only"@ {
            Some(PostPermission::AdminsOnly)
        } else {
            None
        }
    }

    pub fn name(&self) -> (r: &'static str)
        ensures
            r@ == self.spec_name(),
    {
        match self {
            PostPermission::Everyone => "everyone",
            PostPermission::TutorsAndAdmins => "tutors_and_admins",
            PostPermission::AdminsOnly => "admins_only",
        }
    }

    pub fn from_name(s: &str) -> (r: Option<PostPermission>)
        ensures
            r == PostPermission::from_spec_name(s@),
    {
        if str_eq(s, "everyone") {
            Some(PostPermission::Everyone)
        } else if str_eq(s, "tutors_and_admins") {
            Some(PostPermission::TutorsAndAdmins)
        } else if str_eq(s, "admins_only") {
            Some(PostPermission::AdminsOnly)
        } else {
            None
        }
    }
}

/// A channel's stored names read back as the same type, visibility and post
/// permission.
pub proof fn law_channel_names_round_trip(t: ChannelType, v: Visibility, p: PostPermission)
    ensures
        ChannelType::from_spec_name(t.spec_name()) == Some(t),
        Visibility::from_spec_name(v.spec_name()) == Some(v),
        PostPermission::from_spec_name(p.spec_name()) == Some(p),
{
    reveal_strlit("subject");
    reveal_strlit("announcement");
    reveal_strlit("general");
    reveal_strlit("public");
    reveal_strlit("private");
    reveal_strlit("everyone");
    reveal_strlit("tutors_and_admins");
    reveal_strlit("admins_only");
    assert("subject"@.len() == 7);
    assert("announcement"@.len() == 12);
    assert("general"@.len() == 7);
    assert("subject"@[0] != "general"@[0]);
    assert("public"@.len() == 6);
    assert("private"@.len() == 7);
    assert("everyone"@.len() == 8);
    assert("tutors_and_admins"@.len() == 17);
    assert("admins_only"@.len() == 11);
}

/// The channel a request gets when it names no visibility: a public one.
pub fn default_visibility() -> (v: Visibility)
    ensures
        v == Visibility::Public,
{
    Visibility::Public
}

/// The post permission a request gets when it names none: everyone may post.
pub fn default_post_permission() -> (p: PostPermission)
    ensures
        p == PostPermission::Everyone,
{
    PostPermission::Everyone
}

} // verus!
