//! The alerting decision: whether an SMS alert can be sent at all, to which
//! number, and with what request.  The HTTP call itself is made by the
//! process; missing gateway configuration makes the whole thing a no-op, so
//! alerts never fail the analysis path.

use vstd::prelude::*;

use crate::text::{spec_trim, take_chars, trim};

verus! {

/// An SMS alert, ready to be POSTed to the gateway: the account URL, the
/// credentials, and the three form fields.
pub struct AlertRequest {
    pub url: String,
    pub account_sid: String,
    pub auth_token: String,
    pub to_number: String,
    pub from_number: String,
    pub body: String,
}

/// A configuration value that counts as present: set and non-empty.
pub open spec fn spec_present(v: Option<String>) -> bool {
    match v {
        Some(s) => s@.len() > 0,
        None => false,
    }
}

/// The number an alert goes to: the per-system override when it holds more
/// than whitespace, else the configured default when that is non-empty.
pub open spec fn spec_alert_to(override_to: Option<String>, default_to: Option<String>) -> Option<
    Seq<char>,
> {
    match override_to {
        Some(o) if spec_trim(o@).len() > 0 => Some(spec_trim(o@)),
        _ => match default_to {
            Some(d) if d@.len() > 0 => Some(d@),
            _ => None,
        },
    }
}

/// The SMS text: the product name, the risk level, the stream, and the
/// first hundred characters of the description.
pub open spec fn spec_alert_body(
    stream_name: Seq<char>,
    risk_level: Seq<char>,
    description: Seq<char>,
) -> Seq<char> {
    "Cipher-Shield: "@ + risk_level + " risk on stream \""@ + stream_name + "\". "@ + (
    if description.len() <= 100 {
        description
    } else {
        description.take(100)
    })
}

/// The gateway URL messages are POSTed to for an account.
pub open spec fn spec_alert_url(account_sid: Seq<char>) -> Seq<char> {
    "https://api.twilio.com/2010-04-01/Accounts/"@ + account_sid + "/Messages.json"@
}

/// Plans one SMS alert.  Nothing is sent — and `None` is returned — unless
/// the account id, auth token and sending number are all configured and a
/// destination number can be found; alerting is strictly best-effort.
pub fn alert_plan(
    account_sid: Option<String>,
    auth_token: Option<String>,
    from_number: Option<String>,
    override_to: Option<String>,
    default_to: Option<String>,
    stream_name: &str,
    risk_level: &str,
    description: &str,
) -> (r: Option<AlertRequest>)
    ensures
        r is Some <==> (spec_present(account_sid) && spec_present(auth_token) && spec_present(
            from_number,
        ) && spec_alert_to(override_to, default_to) is Some),
        match r {
            Some(req) => {
                &&& Some(req.account_sid@) == spec_view_opt(account_sid)
                &&& Some(req.auth_token@) == spec_view_opt(auth_token)
                &&& Some(req.from_number@) == spec_view_opt(from_number)
                &&& Some(req.to_number@) == spec_alert_to(override_to, default_to)
                &&& req.url@ == spec_alert_url(account_sid->0@)
                &&& req.body@ == spec_alert_body(stream_name@, risk_level@, description@)
            },
            None => true,
        },
{
    let sid = match account_sid {
        Some(s) => {
            if s.as_str().unicode_len() == 0 {
                return None;
            } else {
                s
            }
        },
        None => {
            return None;
        },
    };
    let token = match auth_token {
        Some(s) => {
            if s.as_str().unicode_len() == 0 {
                return None;
            } else {
                s
            }
        },
        None => {
            return None;
        },
    };
    let from = match from_number {
        Some(s) => {
            if s.as_str().unicode_len() == 0 {
                return None;
            } else {
                s
            }
        },
        None => {
            return None;
        },
    };
    let to = match alert_to(override_to, default_to) {
        Some(t) => t,
        None => {
            return None;
        },
    };
    let mut url = String::from_str("https://api.twilio.com/2010-04-01/Accounts/");
    url.append(sid.as_str());
    url.append("/Messages.json");
    let mut body = String::from_str("Cipher-Shield: ");
    body.append(risk_level);
    body.append(" risk on stream \"");
    body.append(stream_name);
    body.append("\". ");
    body.append(take_chars(description, 100));
    proof {
        assert(url@ =~= spec_alert_url(sid@));
        assert(body@ =~= spec_alert_body(stream_name@, risk_level@, description@));
    }
    Some(
        AlertRequest {
            url,
            account_sid: sid,
            auth_token: token,
            to_number: to,
            from_number: from,
            body,
        },
    )
}

/// The text of an optional value.
pub open spec fn spec_view_opt(v: Option<String>) -> Option<Seq<char>> {
    match v {
        Some(s) => Some(s@),
        None => None,
    }
}

/// Picks the destination number: the trimmed override when non-empty, else
/// the non-empty default.
pub fn alert_to(override_to: Option<String>, default_to: Option<String>) -> (r: Option<String>)
    ensures
        match r {
            Some(t) => spec_alert_to(override_to, default_to) == Some(t@),
            None => spec_alert_to(override_to, default_to) is None,
        },
{
    match override_to {
        Some(o) => {
            let t = trim(o.as_str());
            if t.unicode_len() > 0 {
                return Some(t.to_owned());
            }
        },
        None => {},
    }
    match default_to {
        Some(d) => {
            if d.as_str().unicode_len() > 0 {
                Some(d)
            } else {
                None
            }
        },
        None => None,
    }
}

} // verus!
