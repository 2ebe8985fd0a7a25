//! The plain data that the control protocol between the client and the daemon carries,
//! and where its socket and its cache are found.

use crate::path::{ascii, ascii_bytes, join, joined};
use crate::pixel_format::PixelFormat;
use crate::text::{decimal, hex_byte, push_decimal, push_hex_byte, push_signed_decimal, signed_decimal};
use std::time::Duration;
use vstd::prelude::*;
use vstd::string::*;

verus! {

/// What an output shows.
#[derive(Debug)]
pub enum BgImg {
    Color([u8; 3]),
    Img(String),
}

impl Clone for BgImg {
    fn clone(&self) -> (copy: BgImg)
        ensures
            copy == *self,
    {
        match self {
            BgImg::Color(color) => BgImg::Color(*color),
            BgImg::Img(path) => BgImg::Img(path.clone()),
        }
    }
}

impl BgImg {
    /// How the background is described to the user.
    pub open spec fn spec_to_string(&self) -> Seq<char> {
        match self {
            BgImg::Color(color) => "color: "@ + hex_byte(color[0]) + hex_byte(color[1]) + hex_byte(
                color[2],
            ),
            BgImg::Img(path) => "image: "@ + path@,
        }
    }

    /// How the background is described to the user.
    pub fn to_string(&self) -> (text: String)
        ensures
            text@ == self.spec_to_string(),
    {
        match self {
            BgImg::Color(color) => {
                let mut text = String::from_str("color: ");
                push_hex_byte(&mut text, color[0]);
                push_hex_byte(&mut text, color[1]);
                push_hex_byte(&mut text, color[2]);
                text
            },
            BgImg::Img(path) => {
                let text = String::from_str("image: ");
                text.concat(path.as_str())
            },
        }
    }
}

/// What the daemon tells of one output.
pub struct BgInfo {
    pub name: String,
    pub dim: (u32, u32),
    pub scale_factor: i32,
    pub img: BgImg,
    pub pixel_format: PixelFormat,
}

impl Clone for BgInfo {
    fn clone(&self) -> (copy: BgInfo)
        ensures
            copy == *self,
    {
        BgInfo {
            name: self.name.clone(),
            dim: self.dim,
            scale_factor: self.scale_factor,
            img: self.img.clone(),
            pixel_format: self.pixel_format,
        }
    }
}

impl BgInfo {
    /// The scale factor as the unsigned number of 32 bits with the same bits.
    pub open spec fn scale(&self) -> int {
        if self.scale_factor < 0 {
            self.scale_factor + 0x1_0000_0000
        } else {
            self.scale_factor as int
        }
    }

    /// How the output is described to the user.
    pub open spec fn spec_to_string(&self) -> Seq<char> {
        self.name@ + ": "@ + decimal(self.dim.0 as nat) + "x"@ + decimal(self.dim.1 as nat)
            + ", scale: "@ + signed_decimal(self.scale_factor as int)
            + ", currently displaying: "@ + self.img.spec_to_string()
    }

    /// The size of the output in physical pixels.
    #[inline]
    #[must_use]
    pub fn real_dim(&self) -> (dim: (u32, u32))
        requires
            self.dim.0 * self.scale() <= u32::MAX,
            self.dim.1 * self.scale() <= u32::MAX,
        ensures
            dim.0 == self.dim.0 * self.scale(),
            dim.1 == self.dim.1 * self.scale(),
    {
        let scale: u32 = if self.scale_factor < 0 {
            (self.scale_factor as i64 + 0x1_0000_0000) as u32
        } else {
            self.scale_factor as u32
        };
        (self.dim.0 * scale, self.dim.1 * scale)
    }

    /// How the output is described to the user.
    pub fn to_string(&self) -> (text: String)
        ensures
            text@ == self.spec_to_string(),
    {
        let mut text = self.name.clone();
        text.append(": ");
        push_decimal(&mut text, self.dim.0 as u64);
        text.append("x");
        push_decimal(&mut text, self.dim.1 as u64);
        text.append(", scale: ");
        push_signed_decimal(&mut text, self.scale_factor);
        text.append(", currently displaying: ");
        let img = self.img.to_string();
        text.append(img.as_str());
        text
    }
}

/// How one image gives way to the next.
#[derive(Clone, Copy, Debug, PartialEq, Eq, Structural)]
pub enum TransitionType {
    Simple,
    Fade,
    Outer,
    Wipe,
    Grow,
    Wave,
}

/// A request to fill outputs with one color.
pub struct Clear {
    pub color: [u8; 3],
    pub outputs: Box<[String]>,
}

/// An image to show.
pub struct Img {
    pub path: String,
    pub img: Box<[u8]>,
}

/// An animation to play: its frames, each packed as `F` and with the time it stays,
/// and what they were made from and for.
pub struct Animation<F> {
    pub animation: Box<[(F, Duration)]>,
    pub path: String,
    pub dimensions: (u32, u32),
    pub pixel_format: PixelFormat,
}

/// Whether the frames of the animation made from `path` are worth keeping for a later
/// run: not where they were read from the standard input, which is written as `-`.
pub fn is_cacheable(path: &str) -> (cacheable: bool)
    ensures
        cacheable == (path@ != "-"@),
{
    let path = path.to_owned();
    let stdin = String::from_str("-");
    !(path == stdin)
}

/// What the daemon answers.
pub enum Answer {
    /// The request was carried out.
    Okay,
    /// The request failed, and why.
    Error(String),
    /// What every output shows.
    Info(Box<[BgInfo]>),
    /// Whether the daemon is ready to take images.
    Ping(bool),
}

/// How often a read of a message's length that would block is tried again.
pub const READ_RETRIES: u32 = 5;

/// Whether to try again to read a message's length after `tries` earlier failures:
/// where the read failed only because it would block, and not too often yet.
pub fn retries_read(would_block: bool, tries: u32) -> (again: bool)
    ensures
        again == (would_block && tries < READ_RETRIES),
{
    would_block && tries < READ_RETRIES
}

/// Where the daemon's socket is, given the runtime directory.
pub open spec fn spec_socket_path(xdg_runtime_dir: Option<Seq<u8>>) -> Seq<u8> {
    joined(
        match xdg_runtime_dir {
            Some(dir) => dir,
            None => ascii("/tmp/swww"@),
        },
        ascii("swww.socket"@),
    )
}

/// Where the cache is, given the cache directory of the user and the user's home.
pub open spec fn spec_cache_path(xdg_cache_home: Option<Seq<u8>>, home: Option<Seq<u8>>) -> Option<
    Seq<u8>,
> {
    match xdg_cache_home {
        Some(dir) => Some(joined(dir, ascii("swww"@))),
        None => match home {
            Some(dir) => Some(joined(dir, ascii(".cache/swww"@))),
            None => None,
        },
    }
}

proof fn lemma_names_are_ascii()
    ensures
        is_ascii("/tmp/swww"),
        is_ascii("swww.socket"),
        is_ascii("swww"),
        is_ascii(".cache/swww"),
{
    reveal_strlit("/tmp/swww");
    reveal_strlit("swww.socket");
    reveal_strlit("swww");
    reveal_strlit(".cache/swww");
}

/// Where the daemon's socket is: in the runtime directory, the value of
/// `XDG_RUNTIME_DIR`, or in `/tmp/swww` where that is not set.
#[must_use]
pub fn get_socket_path(xdg_runtime_dir: Option<&[u8]>) -> (path: Vec<u8>)
    ensures
        path@ == spec_socket_path(crate::connect::bytes_of(xdg_runtime_dir)),
{
    proof {
        lemma_names_are_ascii();
    }
    let runtime_dir: &[u8] = match xdg_runtime_dir {
        Some(dir) => dir,
        None => ascii_bytes("/tmp/swww"),
    };
    join(runtime_dir, ascii_bytes("swww.socket"))
}

/// Where the cache is: under the value of `XDG_CACHE_HOME`, else under `.cache` in the
/// value of `HOME`; an error where neither is set.
pub fn get_cache_path(xdg_cache_home: Option<&[u8]>, home: Option<&[u8]>) -> (path: Result<
    Vec<u8>,
    String,
>)
    ensures
        match path {
            Ok(found) => spec_cache_path(
                crate::connect::bytes_of(xdg_cache_home),
                crate::connect::bytes_of(home),
            ) == Some(found@),
            Err(message) => xdg_cache_home is None && home is None && message@
                == "failed to read both XDG_CACHE_HOME and HOME env vars"@,
        },
{
    proof {
        lemma_names_are_ascii();
    }
    match xdg_cache_home {
        Some(dir) => Ok(join(dir, ascii_bytes("swww"))),
        None => match home {
            Some(dir) => Ok(join(dir, ascii_bytes(".cache/swww"))),
            None => Err(String::from_str("failed to read both XDG_CACHE_HOME and HOME env vars")),
        },
    }
}

} // verus!
