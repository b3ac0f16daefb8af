//! The post that is made of a record and its downloaded image.

use vstd::prelude::*;
use vstd::string::StringExecFns;
use bytes::Bytes;
use crate::cli::Cli;
use crate::fetch::{bytes_of, check_size, size_accepted};
use crate::types::{Image, Licence, Status};

verus! {

/// A file that goes out with a post.
#[derive(Debug)]
pub struct Attachment {
    pub content: Bytes,
    pub filename: String,
    pub content_type: String,
    pub alt_text: String,
}

/// What is handed to the posting gateway.
#[derive(Debug)]
pub struct Post {
    pub headline: String,
    pub markdown: String,
    pub attachments: Vec<Attachment>,
    pub tags: Vec<String>,
}

/// An attachment as plain values.
pub struct AttachmentView {
    pub content: Seq<u8>,
    pub filename: Seq<char>,
    pub content_type: Seq<char>,
    pub alt_text: Seq<char>,
}

/// A post as plain values.
pub struct PostView {
    pub headline: Seq<char>,
    pub markdown: Seq<char>,
    pub attachments: Seq<AttachmentView>,
    pub tags: Seq<Seq<char>>,
}

impl View for Attachment {
    type V = AttachmentView;

    open spec fn view(&self) -> AttachmentView {
        AttachmentView {
            content: bytes_of(self.content),
            filename: self.filename@,
            content_type: self.content_type@,
            alt_text: self.alt_text@,
        }
    }
}

impl View for Post {
    type V = PostView;

    open spec fn view(&self) -> PostView {
        PostView {
            headline: self.headline@,
            markdown: self.markdown@,
            attachments: Seq::new(self.attachments@.len(), |i: int| self.attachments@[i]@),
            tags: Seq::new(self.tags@.len(), |i: int| self.tags@[i]@),
        }
    }
}

/// The tags that the settings ask for, none where they name none.
pub open spec fn tags_of(args: Cli) -> Seq<Seq<char>> {
    match args.tags {
        Some(tags) => Seq::new(tags@.len(), |i: int| tags@[i]@),
        None => Seq::empty(),
    }
}

/// The alt text that the settings ask for, empty where they name none.
pub open spec fn alt_text_of(args: Cli) -> Seq<char> {
    match args.alt_text {
        Some(alt) => alt@,
        None => Seq::empty(),
    }
}

/// The body of a post: a link to the page the image comes from, followed by
/// the label of its licence in emphasis.
pub open spec fn markdown_of(source_url: Seq<char>, licence: Licence) -> Seq<char> {
    "[Source]("@ + source_url + ") (*"@ + licence.spec_label() + "*)"@
}

/// The post of an image: its title as the headline, the body above, the
/// image as the one attachment, and the tags of the settings.
pub open spec fn post_of(img: Image, content: Seq<u8>, args: Cli) -> PostView {
    PostView {
        headline: img.title@,
        markdown: markdown_of(img.source_url@, img.licence),
        attachments: seq![
            AttachmentView {
                content: content,
                filename: "image.jpg"@,
                content_type: "image/jpeg"@,
                alt_text: alt_text_of(args),
            },
        ],
        tags: tags_of(args),
    }
}

/// The status that a download which brought no usable image ends in, and
/// `None` where the image can be posted.
pub open spec fn fetch_failure(fetched: Result<Bytes, Status>) -> Option<Status> {
    match fetched {
        Err(status) => Some(status),
        Ok(buf) => if size_accepted(bytes_of(buf).len()) {
            None
        } else {
            Some(Status::ImageTooLarge)
        },
    }
}

/// Writes the body of a post.
fn markdown(source_url: &String, licence: &Licence) -> (body: String)
    ensures
        body@ == markdown_of(source_url@, *licence),
{
    let label = licence.display();
    let mut body = String::from_str("[Source](");
    body.append(source_url.as_str());
    body.append(") (*");
    body.append(label.as_str());
    body.append("*)");
    body
}

/// Makes the post of `img` from what the download brought.
///
/// A download that failed is handed on as its status. An image that is empty
/// or of `MAX_IMAGE_BYTES` or more gives `ImageTooLarge`. Any other image
/// gives the post, with the downloaded buffer itself as its attachment.
pub fn generate_post(img: &Image, fetched: Result<Bytes, Status>, args: Cli) -> (post: Result<
    Post,
    Status,
>)
    ensures
        match fetch_failure(fetched) {
            Some(status) => post == Err::<Post, Status>(status),
            None => post is Ok && post->Ok_0@ == post_of(*img, bytes_of(fetched->Ok_0), args)
                && post->Ok_0.attachments@.len() == 1 && post->Ok_0.attachments@[0].content
                == fetched->Ok_0,
        },
{
    let buf = match fetched {
        Ok(buf) => buf,
        Err(status) => {
            return Err(status);
        },
    };
    let buf = match check_size(buf) {
        Ok(buf) => buf,
        Err(status) => {
            return Err(status);
        },
    };
    let alt_text = match args.alt_text {
        Some(alt) => alt,
        None => String::new(),
    };
    let tags = match args.tags {
        Some(tags) => tags,
        None => Vec::new(),
    };
    let attachment = Attachment {
        content: buf,
        filename: String::from_str("image.jpg"),
        content_type: String::from_str("image/jpeg"),
        alt_text,
    };
    let mut attachments: Vec<Attachment> = Vec::new();
    attachments.push(attachment);
    let post = Post {
        headline: img.title.clone(),
        markdown: markdown(&img.source_url, &img.licence),
        attachments,
        tags,
    };
    proof {
        let want = post_of(*img, bytes_of(buf), args);
        assert(post@.attachments =~= want.attachments);
        assert(post@.tags =~= want.tags);
    }
    Ok(post)
}

} // verus!
