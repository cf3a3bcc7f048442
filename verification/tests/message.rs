use ollama_chat::message::{ChatMessage, Image, MessageRole};

#[test]
fn new_message_has_role_and_content_and_no_images() {
    let message = ChatMessage::new(MessageRole::System, "be brief".to_string());
    assert_eq!(message.role, MessageRole::System);
    assert_eq!(message.content, "be brief");
    assert_eq!(message.images, None);
}

#[test]
fn user_message_has_user_role() {
    let message = ChatMessage::user("hi".to_string());
    assert_eq!(message, ChatMessage::new(MessageRole::User, "hi".to_string()));
}

#[test]
fn assistant_message_has_assistant_role() {
    let message = ChatMessage::assistant("hello".to_string());
    assert_eq!(message, ChatMessage::new(MessageRole::Assistant, "hello".to_string()));
}

#[test]
fn system_message_has_system_role() {
    let message = ChatMessage::system("rules".to_string());
    assert_eq!(message, ChatMessage::new(MessageRole::System, "rules".to_string()));
}

#[test]
fn the_three_roles_differ() {
    assert_ne!(ChatMessage::user("x".to_string()), ChatMessage::assistant("x".to_string()));
    assert_ne!(ChatMessage::user("x".to_string()), ChatMessage::system("x".to_string()));
    assert_ne!(ChatMessage::assistant("x".to_string()), ChatMessage::system("x".to_string()));
}

#[test]
fn image_keeps_its_base64_text() {
    let image = Image::from_base64("aGVsbG8=");
    assert_eq!(image.to_base64(), "aGVsbG8=");
    assert_eq!(image.clone().to_base64(), "aGVsbG8=");
}

#[test]
fn with_images_attaches_the_images_given() {
    let message = ChatMessage::user("look".to_string())
        .with_images(vec![Image::from_base64("QQ=="), Image::from_base64("Qg==")]);
    assert_eq!(message.role, MessageRole::User);
    assert_eq!(message.content, "look");
    assert_eq!(
        message.images,
        Some(vec![Image::from_base64("QQ=="), Image::from_base64("Qg==")])
    );
}

#[test]
fn with_images_replaces_earlier_images() {
    let message = ChatMessage::user("look".to_string())
        .with_images(vec![Image::from_base64("QQ==")])
        .with_images(vec![Image::from_base64("Qg==")]);
    assert_eq!(message.images, Some(vec![Image::from_base64("Qg==")]));
}

#[test]
fn with_no_images_is_not_without_images() {
    let message = ChatMessage::user("look".to_string()).with_images(vec![]);
    assert_eq!(message.images, Some(vec![]));
}

#[test]
fn add_image_to_a_message_without_images() {
    let message = ChatMessage::user("look".to_string()).add_image(Image::from_base64("QQ=="));
    assert_eq!(message.content, "look");
    assert_eq!(message.images, Some(vec![Image::from_base64("QQ==")]));
}

#[test]
fn add_image_comes_after_the_images_already_there() {
    let message = ChatMessage::user("look".to_string())
        .with_images(vec![Image::from_base64("QQ==")])
        .add_image(Image::from_base64("Qg=="))
        .add_image(Image::from_base64("Qw=="));
    assert_eq!(
        message.images,
        Some(vec![
            Image::from_base64("QQ=="),
            Image::from_base64("Qg=="),
            Image::from_base64("Qw=="),
        ])
    );
}

#[test]
fn a_clone_of_a_message_equals_it() {
    let message = ChatMessage::assistant("hello".to_string()).add_image(Image::from_base64("QQ=="));
    assert_eq!(message.clone(), message);
}
