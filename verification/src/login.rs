//! What the answer to a login query means.

use crate::scan::{contains_text, holds_text};
use crate::text::chars_of;
use vstd::prelude::*;
use vstd::string::StringExecFns;

verus! {

/// The answer of the service to a login query, as far as it is read.
#[derive(Debug, PartialEq, Eq)]
pub struct PhoneReply {
    pub success: bool,
    pub mobile_phone: String,
}

/// What a login query came to.
#[derive(Debug, PartialEq, Eq)]
pub enum LoginVerdict {
    /// The token is good; the account has this phone number.
    Accepted { mobile_phone: String },
    /// The answer does not even speak of success: the token is wrong or
    /// too old.
    TokenInvalid,
    /// The answer speaks of success but cannot be read.
    Unreadable,
    /// The service refuses the token.
    TokenExpired,
}

/// The mathematical content of a [`LoginVerdict`].
pub ghost enum LoginVerdictView {
    Accepted { mobile_phone: Seq<char> },
    TokenInvalid,
    Unreadable,
    TokenExpired,
}

impl View for LoginVerdict {
    type V = LoginVerdictView;

    open spec fn view(&self) -> LoginVerdictView {
        match self {
            LoginVerdict::Accepted { mobile_phone } => LoginVerdictView::Accepted {
                mobile_phone: mobile_phone@,
            },
            LoginVerdict::TokenInvalid => LoginVerdictView::TokenInvalid,
            LoginVerdict::Unreadable => LoginVerdictView::Unreadable,
            LoginVerdict::TokenExpired => LoginVerdictView::TokenExpired,
        }
    }
}

/// The verdict on a login from the body of the answer and what was read
/// from it, if anything was.
pub open spec fn login_verdict(body: Seq<char>, reply: Option<(bool, Seq<char>)>)
    -> LoginVerdictView {
    if !contains_text(body, "success"@) {
        LoginVerdictView::TokenInvalid
    } else {
        match reply {
            None => LoginVerdictView::Unreadable,
            Some((true, phone)) => LoginVerdictView::Accepted { mobile_phone: phone },
            Some((false, _)) => LoginVerdictView::TokenExpired,
        }
    }
}

/// The text that tells a verdict.
pub open spec fn verdict_text(verdict: LoginVerdictView) -> Seq<char> {
    match verdict {
        LoginVerdictView::Accepted { mobile_phone } => "登录成功!您的手机号是:"@ + mobile_phone,
        LoginVerdictView::TokenInvalid => "错误: authToken输入错误或已过期"@,
        LoginVerdictView::Unreadable => "错误: 响应格式错误"@,
        LoginVerdictView::TokenExpired => "错误: authToken过期"@,
    }
}

/// The view of an optional reply.
pub open spec fn phone_reply_view(reply: Option<PhoneReply>) -> Option<(bool, Seq<char>)> {
    match reply {
        Some(r) => Some((r.success, r.mobile_phone@)),
        None => None,
    }
}

/// Judges a login from the body of the service's answer and what was read
/// from it.
pub fn query_mobile_phone(body: &str, reply: Option<PhoneReply>) -> (v: LoginVerdict)
    ensures
        v@ == login_verdict(body@, phone_reply_view(reply)),
{
    let chars = chars_of(body);
    let marker = chars_of("success");
    if !holds_text(&chars, &marker) {
        return LoginVerdict::TokenInvalid;
    }
    match reply {
        None => LoginVerdict::Unreadable,
        Some(r) => {
            if r.success {
                LoginVerdict::Accepted { mobile_phone: r.mobile_phone }
            } else {
                LoginVerdict::TokenExpired
            }
        },
    }
}

impl LoginVerdict {
    /// Whether the login was accepted.
    pub fn is_accepted(&self) -> (b: bool)
        ensures
            b == (self@ is Accepted),
    {
        match self {
            LoginVerdict::Accepted { .. } => true,
            _ => false,
        }
    }

    /// The text that tells the verdict.
    pub fn message(&self) -> (s: String)
        ensures
            s@ == verdict_text(self@),
    {
        match self {
            LoginVerdict::Accepted { mobile_phone } => {
                let mut s = String::from_str("登录成功!您的手机号是:");
                s.append(mobile_phone.as_str());
                s
            },
            LoginVerdict::TokenInvalid => String::from_str("错误: authToken输入错误或已过期"),
            LoginVerdict::Unreadable => String::from_str("错误: 响应格式错误"),
            LoginVerdict::TokenExpired => String::from_str("错误: authToken过期"),
        }
    }
}

} // verus!
