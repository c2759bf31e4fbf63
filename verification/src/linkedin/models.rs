//! The body of a publish request and of its answer, field by field as the
//! remote service names them.

use crate::json::{json_string_literal, string_literal};
use crate::text::{owned, signed_decimal_string, signed_decimal_text};
use vstd::prelude::*;
use vstd::string::*;

verus! {

#[allow(non_snake_case)]
#[derive(Debug, Clone, PartialEq, Eq)]
pub struct ShareContent {
    pub shareCommentary: ShareCommentary,
    pub shareMediaCategory: String,
}

#[derive(Debug, Clone, PartialEq, Eq)]
pub struct ShareCommentary {
    pub text: String,
}

/// Who may see the post; sent under the key
/// `com.linkedin.ugc.MemberNetworkVisibility`.
#[derive(Debug, Clone, PartialEq, Eq)]
pub struct PostVisibility {
    pub visibility: String,
}

#[allow(non_snake_case)]
#[derive(Debug, Clone, PartialEq, Eq)]
pub struct PostPayload {
    pub author: String,
    pub lifecycleState: String,
    pub specificContent: SpecificContent,
    pub visibility: PostVisibility,
    /// Left out of the body when `None`.
    pub scheduledAt: Option<i64>,
}

/// The content of the post; sent under the key `com.linkedin.ugc.ShareContent`.
#[derive(Debug, Clone, PartialEq, Eq)]
pub struct SpecificContent {
    pub share_content: ShareContent,
}

/// The answer to an accepted publish request.
#[derive(Debug, Clone, PartialEq, Eq)]
pub struct PostResponse {
    pub id: String,
}

/// What a `PostPayload` holds, nesting aside.
pub struct PostPayloadView {
    pub author: Seq<char>,
    pub lifecycle_state: Seq<char>,
    pub text: Seq<char>,
    pub media_category: Seq<char>,
    pub visibility: Seq<char>,
    pub scheduled_at: Option<i64>,
}

impl View for PostPayload {
    type V = PostPayloadView;

    open spec fn view(&self) -> PostPayloadView {
        PostPayloadView {
            author: self.author@,
            lifecycle_state: self.lifecycleState@,
            text: self.specificContent.share_content.shareCommentary.text@,
            media_category: self.specificContent.share_content.shareMediaCategory@,
            visibility: self.visibility.visibility@,
            scheduled_at: self.scheduledAt,
        }
    }
}

impl PostPayloadView {
    /// The payload as the compact JSON object that is sent: the members
    /// `author`, `lifecycleState`, `specificContent`, `visibility` and, only
    /// where a time is given, `scheduledAt`, in this order. The content lies
    /// under the key `com.linkedin.ugc.ShareContent`, the visibility under
    /// `com.linkedin.ugc.MemberNetworkVisibility`.
    pub open spec fn json(self) -> Seq<char> {
        "{\"author\":"@ + json_string_literal(self.author) + ",\"lifecycleState\":"@
            + json_string_literal(self.lifecycle_state)
            + ",\"specificContent\":{\"com.linkedin.ugc.ShareContent\":{\"shareCommentary\":{\"text\":"@
            + json_string_literal(self.text) + "},\"shareMediaCategory\":"@ + json_string_literal(
            self.media_category,
        ) + "}},\"visibility\":{\"com.linkedin.ugc.MemberNetworkVisibility\":"@
            + json_string_literal(self.visibility) + "}"@ + (match self.scheduled_at {
            Some(at) => ",\"scheduledAt\":"@ + signed_decimal_text(at as int),
            None => Seq::<char>::empty(),
        }) + "}"@
    }
}

impl PostPayload {
    /// Writes the payload as the JSON object that is sent.
    pub fn to_json(&self) -> (text: String)
        ensures
            text@ == self@.json(),
    {
        let mut text = owned("{\"author\":");
        text.append(string_literal(self.author.as_str()).as_str());
        text.append(",\"lifecycleState\":");
        text.append(string_literal(self.lifecycleState.as_str()).as_str());
        text.append(
            ",\"specificContent\":{\"com.linkedin.ugc.ShareContent\":{\"shareCommentary\":{\"text\":",
        );
        text.append(
            string_literal(self.specificContent.share_content.shareCommentary.text.as_str()).as_str(),
        );
        text.append("},\"shareMediaCategory\":");
        text.append(
            string_literal(self.specificContent.share_content.shareMediaCategory.as_str()).as_str(),
        );
        text.append("}},\"visibility\":{\"com.linkedin.ugc.MemberNetworkVisibility\":");
        text.append(string_literal(self.visibility.visibility.as_str()).as_str());
        text.append("}");
        match self.scheduledAt {
            Some(at) => {
                let mut member = owned(",\"scheduledAt\":");
                member.append(signed_decimal_string(at).as_str());
                text.append(member.as_str());
            },
            None => {
                assert(text@ + Seq::<char>::empty() =~= text@);
            },
        }
        text.append("}");
        text
    }
}

impl View for PostResponse {
    type V = Seq<char>;

    open spec fn view(&self) -> Seq<char> {
        self.id@
    }
}

/// The body that publishes `content` for the member `person_id`: a public
/// post in state `PUBLISHED` with no media, to appear at `schedule` where one
/// is given.
pub open spec fn post_payload(
    person_id: Seq<char>,
    content: Seq<char>,
    schedule: Option<i64>,
) -> PostPayloadView {
    PostPayloadView {
        author: "urn:li:person:"@ + person_id,
        lifecycle_state: "PUBLISHED"@,
        text: content,
        media_category: "NONE"@,
        visibility: "PUBLIC"@,
        scheduled_at: schedule,
    }
}

} // verus!
