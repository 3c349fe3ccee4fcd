//! Commands that take what the repository knows.
use vstd::prelude::*;
use crate::models::application::{Application, ClipboardContent};
use crate::models::application::clipboard::ContentKind;

verus! {

/// Puts the URL of the repository's remote into the clipboard, as text
/// from within a line. Where the working directory is in no repository, or
/// the repository has no such remote, there is no URL and nothing changes.
pub fn copy_remote_url(app: &mut Application, url: Option<String>)
    ensures
        final(app).mode == old(app).mode,
        final(app).workspace == old(app).workspace,
        final(app).view == old(app).view,
        final(app).search_query == old(app).search_query,
        final(app).repository == old(app).repository,
        match url {
            Some(remote) => final(app).clipboard.held().kind() == ContentKind::Inline
                && final(app).clipboard.held().text() == remote@,
            None => final(app).clipboard == old(app).clipboard,
        },
{
    match url {
        Some(remote) => app.clipboard.set_content(ClipboardContent::Inline(remote)),
        None => (),
    }
}

} // verus!
