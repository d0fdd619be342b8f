//! What is answered when a call comes in.

use vstd::prelude::*;
use vstd::string::*;

use crate::text::{chars_of, text_eq};

verus! {

/// The host that is named where the request names none.
pub const DEFAULT_HOST: &'static str = "localhost:8080";

/// What precedes the host in the answer to a call.
pub const TWIML_HEAD: &'static str = "<?xml version=\"1.0\" encoding=\"UTF-8\"?>\n<Response>\n    <Connect>\n        <Stream url=\"wss://";

/// What follows the host in the answer to a call.
pub const TWIML_TAIL: &'static str = "/call\" />\n    </Connect>\n</Response>";

/// What is answered to a request that is not understood.
pub const METHOD_NOT_ALLOWED: &'static str = "Method not allowed";

/// How a request is handled.
#[derive(Debug, Clone, Copy, PartialEq, Eq, Structural)]
pub enum Route {
    /// As the media stream of a call.
    WebSocket,
    /// As the report of a call that comes in.
    Webhook,
    /// Not at all.
    MethodNotAllowed,
}

/// A letter without its case.
pub open spec fn lower(c: char) -> char {
    if 'A' <= c && c <= 'Z' {
        (c as int + 32) as char
    } else {
        c
    }
}

/// A text without the case of its letters.
pub open spec fn lowercase(s: Seq<char>) -> Seq<char> {
    Seq::new(s.len(), |i: int| lower(s[i]))
}

/// Whether `s` is `word`, whatever the case of its letters.
fn is_word(s: &str, word: &str) -> (r: bool)
    ensures
        r == (lowercase(s@) == word@),
{
    let a = chars_of(s);
    let b = chars_of(word);
    if a.len() != b.len() {
        return false;
    }
    let n: usize = a.len();
    let mut i: usize = 0;
    while i < n
        invariant
            i <= n,
            n == a@.len(),
            n == b@.len(),
            a@ == s@,
            b@ == word@,
            forall|k: int| 0 <= k < i ==> lowercase(s@)[k] == word@[k],
        decreases n - i,
    {
        let c: char = a[i];
        let d: char = b[i];
        let same: bool = if c >= 'A' && c <= 'Z' {
            d >= 'a' && d <= 'z' && c as u32 + 32 == d as u32
        } else {
            c == d
        };
        assert(same == (lower(c) == d)) by {
            if 'A' <= c && c <= 'Z' {
                assert(lower(c) as int == c as int + 32);
            }
        }
        if !same {
            assert(lowercase(s@)[i as int] != word@[i as int]);
            return false;
        }
        i = i + 1;
    }
    assert(lowercase(s@) =~= word@);
    true
}

/// Decides how a request is handled: by the protocol that it asks to change to, where it asks for
/// one, and by its method. The name of a protocol consists of ASCII characters.
pub fn call_dispatch(method: &str, upgrade: Option<&str>) -> (r: Route)
    ensures
        r == if upgrade is Some && lowercase(upgrade->0@) == "websocket"@ {
            Route::WebSocket
        } else if method@ == "POST"@ {
            Route::Webhook
        } else {
            Route::MethodNotAllowed
        },
{
    if let Some(protocol) = upgrade {
        if is_word(protocol, "websocket") {
            return Route::WebSocket;
        }
    }
    if text_eq(method, "POST") {
        Route::Webhook
    } else {
        Route::MethodNotAllowed
    }
}

/// The answer to a call that comes in: connect it to a media stream at this host.
pub fn handle_twilio_webhook(host: Option<&str>) -> (r: String)
    ensures
        r@ == TWIML_HEAD@ + (match host {
            Some(h) => h@,
            None => DEFAULT_HOST@,
        }) + TWIML_TAIL@,
{
    let mut r = TWIML_HEAD.to_owned();
    match host {
        Some(h) => r.append(h),
        None => r.append(DEFAULT_HOST),
    }
    r.append(TWIML_TAIL);
    r
}

/// What is answered to a report that cannot be read.
pub fn form_error(error: &str) -> (r: String)
    ensures
        r@ == "Failed to parse form data: "@ + error@,
{
    let mut r = "Failed to parse form data: ".to_owned();
    r.append(error);
    r
}

/// Whether two characters are the same letter, whatever its case, or the same character.
pub open spec fn same_letter(a: char, b: char) -> bool {
    a == b || ('A' <= a && a <= 'Z' && b as int == a as int + 32) || ('A' <= b && b <= 'Z' && a as int
        == b as int + 32)
}

/// A request to change to `websocket`, in letters of either case, is the media stream of a call,
/// whatever its method. Any other is the report of a call where it is posted, and else refused.
pub proof fn law_requests_are_told_apart(
    method: &str,
    upgrade: Option<&str>,
    r: Route,
)
    requires
        call_ensures(call_dispatch, (method, upgrade), r),
    ensures
        r == Route::WebSocket <==> upgrade is Some && upgrade->0@.len() == "websocket"@.len()
            && forall|i: int|
            0 <= i < upgrade->0@.len() ==> same_letter(#[trigger] upgrade->0@[i], "websocket"@[i]),
        r == Route::Webhook <==> r != Route::WebSocket && method@ == "POST"@,
        r == Route::MethodNotAllowed <==> r != Route::WebSocket && method@ != "POST"@,
{
    reveal_strlit("websocket");
    let word = "websocket"@;
    if let Some(u) = upgrade {
        let s = u@;
        assert forall|i: int| 0 <= i < word.len() implies 'a' <= #[trigger] word[i] && word[i]
            <= 'z' by {}
        if lowercase(s) == word {
            assert forall|i: int| 0 <= i < s.len() implies same_letter(
                #[trigger] s[i],
                word[i],
            ) by {
                assert(lowercase(s)[i] == lower(s[i]));
            }
        }
        if s.len() == word.len() && forall|i: int|
            0 <= i < s.len() ==> same_letter(#[trigger] s[i], word[i]) {
            assert forall|i: int| 0 <= i < s.len() implies lowercase(s)[i] == word[i] by {
                assert(same_letter(s[i], word[i]));
                assert('a' <= word[i] && word[i] <= 'z');
                if 'A' <= s[i] && s[i] <= 'Z' {
                    assert(lower(s[i]) as int == s[i] as int + 32);
                }
            }
            assert(lowercase(s) =~= word);
        }
    }
}

/// The answer to a call names the host that was asked, as it is, and the stream at it; any two
/// answers differ in the host alone.
pub proof fn law_answer_names_the_host(host: &str, r: String, other: &str, s: String, t: String)
    requires
        call_ensures(handle_twilio_webhook, (Some(host),), r),
        call_ensures(handle_twilio_webhook, (Some(other),), s),
        call_ensures(handle_twilio_webhook, (None,), t),
    ensures
        exists|head: Seq<char>, tail: Seq<char>|
            r@ == #[trigger] (head + host@ + tail) && s@ == head + other@ + tail && t@ == head
                + "localhost:8080"@ + tail,
{
    assert(r@ == TWIML_HEAD@ + host@ + TWIML_TAIL@);
}

/// The report of a form that cannot be read holds why.
pub proof fn law_form_error_is_reported(error: &str, r: String)
    requires
        call_ensures(form_error, (error,), r),
    ensures
        exists|what: Seq<char>| r@ == #[trigger] (what + error@),
{
    assert(r@ == "Failed to parse form data: "@ + error@);
}

} // verus!
