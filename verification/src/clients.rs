//! Shapes derived from collaborator responses.
//!
//! The user directory and the post store are remote services; calling
//! them is transport work that lives outside the library. What the
//! service computes from their replies — here, a listing-friendly
//! summary of a fetched post — is decided and verified here.

use vstd::prelude::*;

use vstd::string::StringExecFns;

verus! {

/// How many characters of a post's content the preview keeps.
pub const PREVIEW_CHARS: usize = 100;

/// A post summary for listings: identity, title, author, and a content
/// preview truncated to `PREVIEW_CHARS` characters.
#[derive(Debug)]
pub struct PostMetadata {
    pub id: u32,
    pub title: String,
    pub author_id: String,
    pub content_preview: String,
}

impl PostMetadata {
    /// Summarizes a fetched post: long content is cut to its first
    /// `PREVIEW_CHARS` characters with a trailing ellipsis, short content
    /// is kept whole.
    pub fn from_post(id: u32, title: String, author_id: String, content: String) -> (r:
        PostMetadata)
        ensures
            r.id == id,
            r.title == title,
            r.author_id == author_id,
            content@.len() > PREVIEW_CHARS ==> r.content_preview@ == content@.subrange(
                0,
                PREVIEW_CHARS as int,
            ) + "..."@,
            content@.len() <= PREVIEW_CHARS ==> r.content_preview == content,
    {
        let content_preview = if content.as_str().unicode_len() > PREVIEW_CHARS {
            let head = content.as_str().substring_char(0, PREVIEW_CHARS).to_owned();
            head.concat("...")
        } else {
            content
        };
        PostMetadata { id, title, author_id, content_preview }
    }
}

} // verus!
