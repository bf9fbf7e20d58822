//! What is asked of the delivery provider: where each call goes and which
//! form fields it carries. Making the call is left to the caller, which
//! reports the answer as a [`crate::reply::ProviderReply`].

use vstd::prelude::*;
use vstd::string::StringExecFns;

verus! {

/// The media type of the form that every call carries.
pub const FORM_CONTENT_TYPE: &'static str = "application/x-www-form-urlencoded";

/// One call to the provider: the address, and the form fields in order.
#[derive(Debug)]
pub struct ProviderRequest {
    pub url: String,
    pub form: Vec<(String, String)>,
}

impl ProviderRequest {
    /// The form fields as pairs of name and value.
    pub open spec fn fields(self) -> Seq<(Seq<char>, Seq<char>)> {
        Seq::new(self.form@.len(), |i: int| (self.form@[i].0@, self.form@[i].1@))
    }
}

/// The address of the provider's resource `resource` under the service
/// `service_id`.
pub open spec fn service_url(service_id: Seq<char>, resource: Seq<char>) -> Seq<char> {
    "https://verify.twilio.com/v2/Services/"@ + service_id + "/"@ + resource
}

fn build_url(service_id: &str, resource: &str) -> (url: String)
    ensures
        url@ == service_url(service_id@, resource@),
{
    let mut url = String::from_str("https://verify.twilio.com/v2/Services/");
    url.append(service_id);
    url.append("/");
    url.append(resource);
    url
}

fn field(name: &str, value: &str) -> (pair: (String, String))
    ensures
        pair.0@ == name@,
        pair.1@ == value@,
{
    (String::from_str(name), String::from_str(value))
}

/// The call that has a challenge sent to `phone_number` as a text message.
pub fn send_challenge_request(service_id: &str, phone_number: &str) -> (request: ProviderRequest)
    ensures
        request.url@ == service_url(service_id@, "Verifications"@),
        request.fields() == seq![("To"@, phone_number@), ("Channel"@, "sms"@)],
{
    let mut form: Vec<(String, String)> = Vec::new();
    form.push(field("To", phone_number));
    form.push(field("Channel", "sms"));
    let request = ProviderRequest { url: build_url(service_id, "Verifications"), form };
    assert(request.fields() =~= seq![("To"@, phone_number@), ("Channel"@, "sms"@)]);
    request
}

/// The call that has `code` checked against the challenge sent to
/// `phone_number`. Number and code go out as they came in.
pub fn check_challenge_request(service_id: &str, phone_number: &str, code: &str) -> (request:
    ProviderRequest)
    ensures
        request.url@ == service_url(service_id@, "VerificationCheck"@),
        request.fields() == seq![("To"@, phone_number@), ("Code"@, code@)],
{
    let mut form: Vec<(String, String)> = Vec::new();
    form.push(field("To", phone_number));
    form.push(field("Code", code));
    let request = ProviderRequest { url: build_url(service_id, "VerificationCheck"), form };
    assert(request.fields() =~= seq![("To"@, phone_number@), ("Code"@, code@)]);
    request
}

} // verus!
