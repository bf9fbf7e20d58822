use sms_verification::provider::{
    check_challenge_request, send_challenge_request, FORM_CONTENT_TYPE,
};

fn pair(name: &str, value: &str) -> (String, String) {
    (name.to_string(), value.to_string())
}

#[test]
fn send_request_goes_to_the_verifications_of_the_service() {
    let request = send_challenge_request("VA0123", "+15551234567");
    assert_eq!(request.url, "https://verify.twilio.com/v2/Services/VA0123/Verifications");
    assert_eq!(request.form, vec![pair("To", "+15551234567"), pair("Channel", "sms")]);
}

#[test]
fn check_request_goes_to_the_verification_check_of_the_service() {
    let request = check_challenge_request("VA0123", "+15551234567", "000000");
    assert_eq!(request.url, "https://verify.twilio.com/v2/Services/VA0123/VerificationCheck");
    assert_eq!(request.form, vec![pair("To", "+15551234567"), pair("Code", "000000")]);
}

#[test]
fn requests_carry_number_and_code_unchanged() {
    let request = check_challenge_request("", "", "");
    assert_eq!(request.url, "https://verify.twilio.com/v2/Services//VerificationCheck");
    assert_eq!(request.form, vec![pair("To", ""), pair("Code", "")]);
    let request = send_challenge_request("a/b", "00 49 (151) 1");
    assert_eq!(request.url, "https://verify.twilio.com/v2/Services/a/b/Verifications");
    assert_eq!(request.form[0], pair("To", "00 49 (151) 1"));
}

#[test]
fn form_content_type() {
    assert_eq!(FORM_CONTENT_TYPE, "application/x-www-form-urlencoded");
}
