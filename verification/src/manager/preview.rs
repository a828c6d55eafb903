//! What the preview pane shows for the hovered entry.

use crate::location::texts;
use crate::manager::navigate::metadata_failure;
use crate::manager::{FileManager, Model};
use crate::raster::{cells_of, resample_fits, Bitmap, Cell, ImageWidget};
use crate::text::sentence;
use vstd::prelude::*;

verus! {

/// What the caller found at the hovered position.
#[derive(Debug, PartialEq, Eq)]
pub enum Found {
    /// The file system would not tell what is there; the reason.
    Unknown(String),
    /// A directory, with the names of its entries or the reason why they
    /// could not be read.
    Directory(Result<Vec<String>, String>),
    /// A regular file, with its contents if they are text, and with its
    /// picture if they decode as one.
    File { text: Option<String>, image: Option<Bitmap> },
    /// Something that is neither a directory nor a regular file.
    Other,
}

/// What the preview pane shows.
#[derive(Debug, PartialEq, Eq)]
pub enum Preview {
    /// Nothing.
    Empty,
    /// The names in the hovered directory.
    Listing(Vec<String>),
    /// A message in place of a listing that could not be read.
    Failure(String),
    /// The contents of the hovered file.
    Text(String),
    /// The picture in the hovered file, as rows of cells.
    Image(Vec<Vec<Cell>>),
}

/// What a [`Preview`] stands for.
pub enum Shown {
    Empty,
    Listing(Seq<Seq<char>>),
    Failure(Seq<char>),
    Text(Seq<char>),
    Image(Seq<Seq<Cell>>),
}

impl View for Preview {
    type V = Shown;

    open spec fn view(&self) -> Shown {
        match self {
            Preview::Empty => Shown::Empty,
            Preview::Listing(names) => Shown::Listing(texts(names@)),
            Preview::Failure(message) => Shown::Failure(message@),
            Preview::Text(contents) => Shown::Text(contents@),
            Preview::Image(grid) => Shown::Image(cells_of(grid@)),
        }
    }
}

/// The message shown in place of the listing of a directory that could not be
/// read.
pub open spec fn preview_failure(at: Seq<char>, reason: Seq<char>) -> Seq<char> {
    "Failed to read directory\n > "@ + at + "\n\nError: "@ + reason
}

impl Model {
    /// What the preview pane of `width` by `height` cells shows when `found`
    /// is at the hovered position. With nothing hovered it shows nothing. A
    /// directory shows its listing, or the failure to read it. A file shows
    /// its text if it has any, else its picture if it has one and this
    /// machine can fit it to the pane. Everything else shows nothing.
    pub open spec fn preview(self, found: Found, width: nat, height: nat) -> Shown {
        if self.hovered() is None {
            Shown::Empty
        } else {
            match found {
                Found::Directory(Ok(names)) => Shown::Listing(texts(names@)),
                Found::Directory(Err(reason)) => Shown::Failure(
                    preview_failure(self.hovered_place().shown(), reason@),
                ),
                Found::File { text: Some(contents), .. } => Shown::Text(contents@),
                Found::File { text: None, image: Some(img) } => if resample_fits(
                    img@.width,
                    width,
                    2 * height,
                ) {
                    Shown::Image(img@.fitted(width, height).halfblocks())
                } else {
                    Shown::Empty
                },
                _ => Shown::Empty,
            }
        }
    }

    /// The state after the preview: a hovered position of which the file
    /// system would tell nothing is recorded as the current error.
    pub open spec fn previewed(self, found: Found) -> Model {
        match found {
            Found::Unknown(reason) => if self.hovered() is Some {
                Model { error: metadata_failure(self.hovered_place().shown(), reason@), ..self }
            } else {
                self
            },
            _ => self,
        }
    }
}

impl FileManager {
    /// Decides what the preview pane of `width` by `height` cells shows, from
    /// what the caller found at the hovered position.
    pub fn render_peekable_items(&mut self, found: Found, width: u16, height: u16) -> (preview:
        Preview)
        ensures
            preview@ == old(self)@.preview(found, width as nat, height as nat),
            final(self)@ == old(self)@.previewed(found),
            old(self)@.wf() ==> final(self)@.wf(),
    {
        if !self.is_hovering() {
            return Preview::Empty;
        }
        match found {
            Found::Unknown(reason) => {
                let cur_path = self.get_hovered_dir().text();
                self.error = sentence(
                    "Error getting metadata of path ",
                    cur_path.as_str(),
                    ": ",
                    reason.as_str(),
                );
                Preview::Empty
            },
            Found::Directory(Ok(names)) => Preview::Listing(names),
            Found::Directory(Err(reason)) => {
                let cur_path = self.get_hovered_dir().text();
                Preview::Failure(
                    sentence(
                        "Failed to read directory\n > ",
                        cur_path.as_str(),
                        "\n\nError: ",
                        reason.as_str(),
                    ),
                )
            },
            Found::File { text: Some(contents), .. } => Preview::Text(contents),
            Found::File { text: None, image: Some(img) } => {
                let image_widget = ImageWidget::new(img);
                if image_widget.fits(width, height) {
                    Preview::Image(image_widget.render(width, height))
                } else {
                    Preview::Empty
                }
            },
            _ => Preview::Empty,
        }
    }
}

} // verus!
