//! Message content: an ordered list of mixed blocks (text / image),
//! serialized and encrypted end-to-end before it leaves the client.
use vstd::prelude::*;

verus! {

/// A single piece of a message.
#[derive(Debug, Clone, PartialEq)]
pub enum Block {
    Text { text: String },
    Image {
        /// Server-side attachment id of the encrypted image.
        attachment_id: String,
        /// The image's symmetric key, encrypted with the session key (base64).
        key_ciphertext: String,
        /// Nonce used to encrypt `key_ciphertext` (base64).
        key_nonce: String,
    },
}

/// Full plaintext message content: an ordered list of mixed blocks.
#[derive(Debug, Clone, PartialEq)]
pub struct MessageContent {
    pub blocks: Vec<Block>,
}

impl MessageContent {
    /// A message made of one text block.
    pub fn text(text: String) -> (content: Self)
        ensures
            content.blocks@.len() == 1,
            content.blocks@[0] == (Block::Text { text }),
    {
        let mut blocks: Vec<Block> = Vec::new();
        blocks.push(Block::Text { text });
        MessageContent { blocks }
    }
}

impl Default for MessageContent {
    /// A message with no blocks.
    fn default() -> (content: Self)
        ensures
            content.blocks@.len() == 0,
    {
        MessageContent { blocks: Vec::new() }
    }
}

} // verus!
