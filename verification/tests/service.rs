use verifying_email_binder::json::Value;
use verifying_email_binder::rpc::error::RpcError;
use verifying_email_binder::rpc::request::{Id, RequestParams, RpcMethodCall, Version};
use verifying_email_binder::rpc::response::{ResponseResult, ResponseResultView, RpcResponse};
use verifying_email_binder::server::handler::{tag_call, DecodeError, DomainRequest, RpcHandler};
use verifying_email_binder::service::code::{
    code_text, first_step, generate_code, is_valid_email, lookup_step, new_code,
    success, BindCode, CodeAction, CodeEvent, CODE_HIGH, CODE_LOW, EMAIL_PATTERN, REUSE_SECONDS,
    STATUS_NEW,
    STATUS_SENT, STATUS_USED,
};
use verifying_email_binder::service::email::{mail_body, mail_subject, MAILS_PER_ROUND};
use verifying_email_binder::service::error::{to_rpc_result, ServiceError, ToRpcResponseResult};
use verifying_email_binder::service::verify::{
    email_digest, verify_code, VerifyAction, VerifyEvent, VERIFY_SECONDS,
};
use verifying_email_binder::service::ApiRequest;
use verifying_email_binder::text::{decimal, signed_decimal};

fn strings(items: &[&str]) -> RequestParams {
    RequestParams::Array(items.iter().map(|s| Value::String((*s).to_owned())).collect())
}

fn tagged(method: &str, params: RequestParams) -> Value {
    tag_call(method.to_owned(), params)
}

fn stored(status: i16, created_at: i64) -> BindCode {
    BindCode {
        id: 1,
        account: "0xabc".to_owned(),
        email: "user@example.com".to_owned(),
        code: "123456".to_owned(),
        status,
        created_at,
        updated_at: None,
    }
}

fn invalid(text: &str) -> Result<String, ServiceError> {
    Err(ServiceError::InvalidRequest(text.to_owned()))
}

#[test]
fn send_code_takes_account_and_address() {
    assert_eq!(
        ApiRequest::decode(&tagged("send_code", strings(&["0xabc", "a@b.io"]))),
        Ok(ApiRequest::SendCode("0xabc".to_owned(), "a@b.io".to_owned()))
    );
}

#[test]
fn verify_code_takes_account_address_and_code() {
    assert_eq!(
        ApiRequest::decode(&tagged("verify_code", strings(&["0xabc", "a@b.io", "123456"]))),
        Ok(ApiRequest::VerifyCode("0xabc".to_owned(), "a@b.io".to_owned(), "123456".to_owned()))
    );
}

#[test]
fn method_that_the_domain_lacks_is_unknown() {
    assert_eq!(
        ApiRequest::decode(&tagged("sendCode", strings(&["a", "b"]))),
        Err(DecodeError::UnknownMethod)
    );
    assert_eq!(
        ApiRequest::decode(&tagged("", RequestParams::Absent)),
        Err(DecodeError::UnknownMethod)
    );
    assert_eq!(ApiRequest::decode(&Value::Null), Err(DecodeError::UnknownMethod));
    assert_eq!(
        ApiRequest::decode(&Value::Object(vec![("method".to_owned(), Value::from_i64(1))])),
        Err(DecodeError::UnknownMethod)
    );
}

#[test]
fn wrong_number_of_parameters_is_told() {
    assert_eq!(
        ApiRequest::decode(&tagged("send_code", strings(&["a"]))),
        Err(DecodeError::InvalidParams("invalid length: expected 2 parameters".to_owned()))
    );
    assert_eq!(
        ApiRequest::decode(&tagged("send_code", strings(&["a", "b", "c"]))),
        Err(DecodeError::InvalidParams("invalid length: expected 2 parameters".to_owned()))
    );
    assert_eq!(
        ApiRequest::decode(&tagged("verify_code", strings(&["a", "b"]))),
        Err(DecodeError::InvalidParams("invalid length: expected 3 parameters".to_owned()))
    );
    assert_eq!(
        ApiRequest::decode(&tagged("verify_code", strings(&[]))),
        Err(DecodeError::InvalidParams("invalid length: expected 3 parameters".to_owned()))
    );
}

#[test]
fn parameter_that_is_no_string_is_told() {
    let params = RequestParams::Array(vec![Value::from_str("a"), Value::from_i64(1)]);
    assert_eq!(
        ApiRequest::decode(&tagged("send_code", params)),
        Err(DecodeError::InvalidParams("invalid type: expected a string".to_owned()))
    );
    let params = RequestParams::Array(vec![Value::Null, Value::from_str("b"), Value::from_str("c")]);
    assert_eq!(
        ApiRequest::decode(&tagged("verify_code", params)),
        Err(DecodeError::InvalidParams("invalid type: expected a string".to_owned()))
    );
}

#[test]
fn parameters_that_are_no_array_are_told() {
    let expected =
        Err(DecodeError::InvalidParams("invalid type: expected an array of parameters".to_owned()));
    assert_eq!(ApiRequest::decode(&tagged("send_code", RequestParams::Absent)), expected);
    assert_eq!(ApiRequest::decode(&tagged("verify_code", RequestParams::Object(vec![]))), expected);
    assert_eq!(
        ApiRequest::decode(&Value::Object(vec![("method".to_owned(), Value::from_str("send_code"))])),
        expected
    );
}

/// A handler of the domain that answers with the name of the variant.
struct Naming;

impl RpcHandler for Naming {
    type Request = ApiRequest;

    fn answers(&self, _request: ApiRequest, _result: ResponseResultView) -> bool {
        unreachable!()
    }

    fn on_request(&self, request: ApiRequest) -> ResponseResult {
        match request {
            ApiRequest::SendCode(..) => ResponseResult::success(Value::from_str("send")),
            ApiRequest::VerifyCode(..) => ResponseResult::success(Value::from_str("verify")),
        }
    }
}

fn domain_call(method: &str, params: RequestParams) -> RpcMethodCall {
    RpcMethodCall { jsonrpc: Version::V2, method: method.to_owned(), params, id: Id::Number(1) }
}

#[test]
fn domain_call_reaches_the_handler() {
    assert_eq!(
        Naming.on_call(domain_call("send_code", strings(&["a", "b"]))),
        RpcResponse::new(Id::Number(1), ResponseResult::success(Value::from_str("send")))
    );
    assert_eq!(
        Naming.on_call(domain_call("verify_code", strings(&["a", "b", "c"]))),
        RpcResponse::new(Id::Number(1), ResponseResult::success(Value::from_str("verify")))
    );
}

#[test]
fn domain_call_with_unknown_method_yields_method_not_found() {
    assert_eq!(
        Naming.on_call(domain_call("resend_code", strings(&["a", "b"]))),
        RpcResponse::new(Id::Number(1), ResponseResult::error(RpcError::method_not_found()))
    );
}

#[test]
fn domain_call_with_bad_parameters_yields_invalid_params() {
    let response = Naming.on_call(domain_call("send_code", strings(&["a"])));
    assert_eq!(
        response,
        RpcResponse::new(
            Id::Number(1),
            ResponseResult::error(RpcError::invalid_params(
                "invalid length: expected 2 parameters".to_owned()
            ))
        )
    );
    match response.result() {
        ResponseResult::Error(error) => assert!(!error.message.is_empty()),
        _ => panic!("an error was owed"),
    }
}

#[test]
fn outcome_of_the_domain_is_told_as_a_result() {
    let done: Result<String, ServiceError> = Ok("Success".to_owned());
    assert_eq!(done.to_rpc_result(), ResponseResult::Success(Value::String("Success".to_owned())));
    let database: Result<String, ServiceError> = Err(ServiceError::DatabaseError("down".to_owned()));
    assert_eq!(
        database.to_rpc_result(),
        ResponseResult::Error(RpcError::internal_error_with("down".to_owned()))
    );
    assert_eq!(
        invalid("error code").to_rpc_result(),
        ResponseResult::Error(RpcError::internal_error_with("error code".to_owned()))
    );
}

#[test]
fn value_that_was_not_serialised_is_an_internal_error() {
    let fine: Result<Value, ()> = Ok(Value::Bool(true));
    assert_eq!(to_rpc_result(fine), ResponseResult::Success(Value::Bool(true)));
    let failed: Result<Value, String> = Err("no such value".to_owned());
    assert_eq!(to_rpc_result(failed), ResponseResult::Error(RpcError::internal_error()));
}

#[test]
fn addresses_are_held_to_the_pattern() {
    assert!(is_valid_email("user@example.com"));
    assert!(is_valid_email("a_b+c.d@mail.example.org"));
    assert!(is_valid_email("user@example.company"));
    assert!(!is_valid_email("User@example.com"));
    assert!(!is_valid_email("user@example"));
    assert!(!is_valid_email("user.example.com"));
    assert!(!is_valid_email(".user@example.com"));
    assert!(!is_valid_email(""));
    assert!(!is_valid_email(EMAIL_PATTERN));
}

#[test]
fn request_with_a_bad_address_ends_at_once() {
    assert_eq!(generate_code("not an address", CodeEvent::Start), CodeAction::Finish(invalid("invalid email")));
    assert_eq!(first_step(Some(false)), CodeAction::Finish(invalid("invalid email")));
    assert_eq!(first_step(None), CodeAction::Finish(invalid("invalid email")));
}

#[test]
fn request_with_a_good_address_looks_up_the_latest_code() {
    assert_eq!(generate_code("user@example.com", CodeEvent::Start), CodeAction::FetchLatest);
    assert_eq!(first_step(Some(true)), CodeAction::FetchLatest);
}

#[test]
fn pending_code_ends_the_request_without_a_new_one() {
    let done = CodeAction::Finish(Ok("Success".to_owned()));
    assert_eq!(lookup_step(Some(stored(STATUS_NEW, 1000)), 1000, 111111), done);
    assert_eq!(lookup_step(Some(stored(STATUS_SENT, 1000)), 1299, 111111), done);
    assert_eq!(
        generate_code("user@example.com", CodeEvent::Latest(Some(stored(STATUS_SENT, 1000)), 1299)),
        done
    );
}

#[test]
fn old_used_or_missing_code_makes_way_for_a_new_one() {
    let fresh = CodeAction::Store("111111".to_owned());
    assert_eq!(lookup_step(Some(stored(STATUS_NEW, 1000)), 1000 + REUSE_SECONDS, 111111), fresh);
    assert_eq!(lookup_step(Some(stored(STATUS_NEW, 1000)), 1301, 111111), fresh);
    assert_eq!(lookup_step(Some(stored(STATUS_USED, 1000)), 1000, 111111), fresh);
    assert_eq!(lookup_step(None, 0, 111111), fresh);
    assert_eq!(lookup_step(Some(stored(STATUS_NEW, i64::MAX)), i64::MIN, 111111),
        CodeAction::Finish(Ok("Success".to_owned())));
    assert_eq!(lookup_step(Some(stored(STATUS_NEW, i64::MIN)), i64::MAX, 999998),
        CodeAction::Store("999998".to_owned()));
}

#[test]
fn new_code_is_six_digits_in_the_range() {
    for _ in 0..200 {
        let code = new_code();
        assert_eq!(code.len(), 6);
        let number: u32 = code.parse().unwrap();
        assert!(CODE_LOW <= number && number < CODE_HIGH);
        assert_eq!(code_text(number), code);
    }
    match generate_code("user@example.com", CodeEvent::Latest(None, 5)) {
        CodeAction::Store(code) => {
            let number: u32 = code.parse().unwrap();
            assert!(100000 <= number && number < 999999);
        }
        other => panic!("a new code was owed, not {:?}", other),
    }
}

#[test]
fn stored_code_ends_the_request_with_success() {
    assert_eq!(
        generate_code("user@example.com", CodeEvent::Stored),
        CodeAction::Finish(Ok("Success".to_owned()))
    );
    assert_eq!(success(), "Success");
}

#[test]
fn failed_store_ends_the_request_with_a_database_error() {
    assert_eq!(
        generate_code("user@example.com", CodeEvent::Failed("pool timed out".to_owned())),
        CodeAction::Finish(Err(ServiceError::DatabaseError("pool timed out".to_owned())))
    );
    assert_eq!(
        verify_code("user@example.com", VerifyEvent::Failed("pool timed out".to_owned())),
        VerifyAction::Finish(Err(ServiceError::DatabaseError("pool timed out".to_owned())))
    );
}

#[test]
fn verification_starts_with_the_lookup() {
    assert_eq!(verify_code("user@example.com", VerifyEvent::Start), VerifyAction::FetchSent);
}

#[test]
fn missing_or_expired_code_cannot_be_verified() {
    let refused = VerifyAction::Finish(invalid("error code"));
    assert_eq!(verify_code("user@example.com", VerifyEvent::Latest(None, 0)), refused);
    assert_eq!(verify_code("user@example.com", VerifyEvent::Latest(Some(stored(STATUS_SENT, 1000)), 1361)), refused);
    assert_eq!(
        verify_code("user@example.com", VerifyEvent::Latest(Some(stored(STATUS_SENT, i64::MIN)), i64::MAX)),
        refused
    );
}

#[test]
fn live_code_is_signed() {
    assert_eq!(
        verify_code("user@example.com", VerifyEvent::Latest(Some(stored(STATUS_SENT, 1000)), 1000 + VERIFY_SECONDS)),
        VerifyAction::Sign(email_digest("user@example.com"))
    );
    assert_eq!(
        verify_code("user@example.com", VerifyEvent::Latest(Some(stored(STATUS_SENT, 1000)), 1000)),
        VerifyAction::Sign(email_digest("user@example.com"))
    );
    assert_eq!(
        verify_code("user@example.com", VerifyEvent::Latest(Some(stored(STATUS_SENT, i64::MAX)), i64::MAX)),
        VerifyAction::Sign(email_digest("user@example.com"))
    );
}

#[test]
fn signature_is_kept_then_handed_out_with_its_prefix() {
    assert_eq!(
        verify_code("user@example.com", VerifyEvent::Signed("ab12".to_owned())),
        VerifyAction::MarkUsed("ab12".to_owned())
    );
    assert_eq!(
        verify_code("user@example.com", VerifyEvent::Marked("ab12".to_owned())),
        VerifyAction::Finish(Ok("0xab12".to_owned()))
    );
    assert_eq!(
        verify_code("user@example.com", VerifyEvent::SignFailed("bad key".to_owned())),
        VerifyAction::Finish(invalid("bad key"))
    );
}

#[test]
fn mail_names_the_code() {
    assert_eq!(mail_subject("123456"), "ioPay AA Wallet Verification Code - 123456");
    let body = mail_body("123456");
    assert!(body.starts_with("Dear User,\n\nI hope this message finds you well."));
    assert!(body.contains("Your unique verification code is: \n123456\n\nThis code is essential"));
    assert!(body.ends_with("Best Regards,\nioPay Team"));
    assert_eq!(body.len(), mail_body("").len() + 6);
    assert_eq!(body.matches("123456").count(), 1);
    assert_eq!(MAILS_PER_ROUND, 100);
}

#[test]
fn numbers_are_written_in_decimal() {
    assert_eq!(decimal(0), "0");
    assert_eq!(decimal(9), "9");
    assert_eq!(decimal(10), "10");
    assert_eq!(decimal(1234567890), "1234567890");
    assert_eq!(decimal(u64::MAX), "18446744073709551615");
    assert_eq!(signed_decimal(0), "0");
    assert_eq!(signed_decimal(-1), "-1");
    assert_eq!(signed_decimal(i64::MAX), "9223372036854775807");
    assert_eq!(signed_decimal(i64::MIN), "-9223372036854775808");
    assert_eq!(code_text(100000), "100000");
}

fn hex(bytes: &[u8]) -> String {
    bytes.iter().map(|b| format!("{:02x}", b)).collect()
}

#[test]
fn address_is_known_by_its_keccak_digest() {
    assert_eq!(
        hex(&email_digest("")),
        "c5d2460186f7233c927e7db2dcc703c0e500b653ca82273b7bfad8045d85a470"
    );
    assert_eq!(
        hex(&email_digest("abc")),
        "4e03657aea45a94fc7d47ba826c8d667c0d1e6e33a64a036ec44f58fa12d6c45"
    );
    assert_ne!(email_digest("user@example.com"), email_digest("user@example.org"));
}
