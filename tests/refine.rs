use valleyflow::{refined_text_from_choices, DeepSeekClient};

#[test]
fn test_client_creation() {
    let client = DeepSeekClient::new();
    assert!(!client.has_api_key());
}

#[test]
fn test_set_api_key() {
    let mut client = DeepSeekClient::new();
    client.set_api_key("test-key".to_string());
    assert!(client.has_api_key());
}

#[test]
fn system_prompt_names_the_language() {
    let client = DeepSeekClient::new();
    let pl = client.build_system_prompt("pl");
    assert!(pl.starts_with("You are a text cleaner and formatter."));
    assert!(pl.contains("8. Respond in Polish.\n\nExamples:"));
    let en = client.build_system_prompt("en");
    assert!(en.contains("8. Respond in English.\n"));
    let other = client.build_system_prompt("auto");
    assert!(other.contains("8. Respond in the same language as the input.\n"));
    assert!(other.ends_with("przesłać ten raport.\""));
}

#[test]
fn no_request_without_credential() {
    let client = DeepSeekClient::new();
    assert!(client.prepare_request("um hello world", "en").is_none());
}

#[test]
fn request_carries_credential_and_prompts() {
    let mut client = DeepSeekClient::new();
    client.set_api_key("test-key".to_string());
    let req = client.prepare_request("um hello world", "en").unwrap();
    assert_eq!(req.authorization, "Bearer test-key");
    assert_eq!(req.user_prompt, "Input: um hello world\nOutput:");
    assert_eq!(req.system_prompt, client.build_system_prompt("en"));
}

#[test]
fn reply_takes_first_choice_trimmed() {
    let choices = vec!["  Hello world. \n".to_string(), "Other".to_string()];
    assert_eq!(refined_text_from_choices(&choices, "um hello world"), "Hello world.");
}

#[test]
fn reply_without_choices_keeps_raw_text() {
    assert_eq!(refined_text_from_choices(&Vec::new(), "um hello world"), "um hello world");
}
