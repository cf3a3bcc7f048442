//! One turn of a conversation, and the image attachments it may carry.

use vstd::prelude::*;

verus! {

/// Who speaks in a turn.
#[derive(Clone, Copy, Debug, PartialEq, Eq, Structural)]
pub enum MessageRole {
    User,
    Assistant,
    System,
}

/// An image attached to a message, held as its base64 text.
#[derive(Debug, PartialEq, Eq)]
pub struct Image {
    base64: String,
}

impl View for Image {
    type V = Seq<char>;

    closed spec fn view(&self) -> Seq<char> {
        self.base64@
    }
}

impl DeepView for Image {
    type V = Seq<char>;

    open spec fn deep_view(&self) -> Seq<char> {
        self@
    }
}

impl Clone for Image {
    fn clone(&self) -> (r: Self)
        ensures
            r@ == self@,
    {
        Image { base64: self.base64.clone() }
    }
}

impl Image {
    /// Wraps base64 text as an image; the text is taken as it is.
    pub fn from_base64(base64: &str) -> (r: Self)
        ensures
            r@ == base64@,
    {
        Image { base64: base64.to_owned() }
    }

    /// The base64 text of the image.
    pub fn to_base64(&self) -> (r: &str)
        ensures
            r@ == self@,
    {
        self.base64.as_str()
    }
}

/// What a message is, as a mathematical value.
pub struct ChatMessageView {
    pub role: MessageRole,
    pub content: Seq<char>,
    pub images: Option<Seq<Seq<char>>>,
}

/// One turn of a conversation.
#[derive(Debug, PartialEq, Eq)]
pub struct ChatMessage {
    pub role: MessageRole,
    pub content: String,
    pub images: Option<Vec<Image>>,
}

impl View for ChatMessage {
    type V = ChatMessageView;

    open spec fn view(&self) -> ChatMessageView {
        ChatMessageView {
            role: self.role,
            content: self.content@,
            images: match self.images {
                Some(images) => Some(images.deep_view()),
                None => None,
            },
        }
    }
}

impl DeepView for ChatMessage {
    type V = ChatMessageView;

    open spec fn deep_view(&self) -> ChatMessageView {
        self@
    }
}

impl Clone for ChatMessage {
    fn clone(&self) -> (r: Self)
        ensures
            r@ == self@,
    {
        let images = match &self.images {
            Some(images) => {
                let copy = images.clone();
                assert(copy.deep_view() =~= images.deep_view());
                Some(copy)
            },
            None => None,
        };
        ChatMessage { role: self.role, content: self.content.clone(), images }
    }
}

impl ChatMessage {
    /// A message of the given role and text, without images.
    pub fn new(role: MessageRole, content: String) -> (r: Self)
        ensures
            r@ == (ChatMessageView { role, content: content@, images: None }),
    {
        Self { role, content, images: None }
    }

    /// A message spoken by the user.
    pub fn user(content: String) -> (r: Self)
        ensures
            r@ == (ChatMessageView { role: MessageRole::User, content: content@, images: None }),
    {
        Self::new(MessageRole::User, content)
    }

    /// A message spoken by the model.
    pub fn assistant(content: String) -> (r: Self)
        ensures
            r@ == (ChatMessageView {
                role: MessageRole::Assistant,
                content: content@,
                images: None,
            }),
    {
        Self::new(MessageRole::Assistant, content)
    }

    /// A message that instructs the model.
    pub fn system(content: String) -> (r: Self)
        ensures
            r@ == (ChatMessageView { role: MessageRole::System, content: content@, images: None }),
    {
        Self::new(MessageRole::System, content)
    }

    /// The same message with `images` as its attachments, in place of any it had.
    pub fn with_images(self, images: Vec<Image>) -> (r: Self)
        ensures
            r@ == (ChatMessageView { images: Some(images.deep_view()), ..self@ }),
    {
        let mut message = self;
        message.images = Some(images);
        message
    }

    /// The same message with `image` added after the attachments it had.
    pub fn add_image(self, image: Image) -> (r: Self)
        ensures
            r@ == (ChatMessageView {
                images: Some(
                    match self@.images {
                        Some(images) => images.push(image@),
                        None => seq![image@],
                    },
                ),
                ..self@
            }),
    {
        let ChatMessage { role, content, images } = self;
        let mut attached = match images {
            Some(images) => images,
            None => Vec::new(),
        };
        let ghost before = attached.deep_view();
        attached.push(image);
        assert(attached.deep_view() =~= before.push(image@));
        assert(images is None ==> before =~= Seq::empty());
        ChatMessage { role, content, images: Some(attached) }
    }
}

} // verus!
