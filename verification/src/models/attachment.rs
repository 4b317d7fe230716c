use vstd::prelude::*;

verus! {

/// Attachment tag.
#[derive(Debug, Clone, Copy, PartialEq, Eq)]
pub enum AttachmentTag {
    /// Attachments tag.
    Attachments,
    /// Avatars tag.
    Avatars,
    /// Backgrounds tag.
    Backgrounds,
    /// Icons tag.
    Icons,
    /// Banners tag.
    Banners,
}

/// Attachment metadata.
#[derive(Debug, Clone, Copy, PartialEq, Eq)]
pub enum AttachmentMetadata {
    /// File type.
    File,
    /// Text type.
    Text,
    /// Image type.
    Image {
        /// Image width.
        width: usize,
        /// Image height.
        height: usize,
    },
    /// Video type.
    Video {
        /// Video width.
        width: usize,
        /// Video height.
        height: usize,
    },
    /// Audio type.
    Audio,
}

/// An attachment like icons, avatars, banners or message attachments.
#[derive(Debug, PartialEq, Eq)]
pub struct Attachment {
    /// Attachment id.
    pub id: String,
    /// Attachment tag.
    pub tag: AttachmentTag,
    /// Attachment file name.
    pub filename: String,
    /// Attachment metadata.
    pub metadata: AttachmentMetadata,
    /// Attachment size.
    pub size: usize,
    /// Attachment content type.
    pub content_type: String,
}

/// What a [`Attachment`] holds, as mathematical values.
pub struct AttachmentView {
    pub id: Seq<char>,
    pub tag: AttachmentTag,
    pub filename: Seq<char>,
    pub metadata: AttachmentMetadata,
    pub size: usize,
    pub content_type: Seq<char>,
}

impl DeepView for Attachment {
    type V = AttachmentView;

    open spec fn deep_view(&self) -> AttachmentView {
        AttachmentView {
            id: self.id.deep_view(),
            tag: self.tag,
            filename: self.filename.deep_view(),
            metadata: self.metadata,
            size: self.size,
            content_type: self.content_type.deep_view(),
        }
    }
}

impl Clone for Attachment {
    fn clone(&self) -> (r: Self)
        ensures
            r.deep_view() == self.deep_view(),
    {
        Attachment {
            id: self.id.clone(),
            tag: self.tag,
            filename: self.filename.clone(),
            metadata: self.metadata,
            size: self.size,
            content_type: self.content_type.clone(),
        }
    }
}

} // verus!
