//! What can go wrong while a frame is drawn.

use vstd::prelude::*;
use crate::texture::TextureId;

verus! {

/// An error of the renderer.
#[derive(Clone, Copy, Debug, PartialEq, Eq)]
pub enum RendererError {
    /// A draw command names a texture that is not registered.
    BadTexture(TextureId),
}

/// What a step of the renderer that can fail returns.
pub type RendererResult<T> = Result<T, RendererError>;

/// The character of a decimal digit.
pub open spec fn digit_char(digit: nat) -> char
    recommends
        digit < 10,
{
    (48 + digit) as u8 as char
}

/// A number in decimal digits, without leading zeros.
pub open spec fn decimal(n: nat) -> Seq<char>
    decreases n,
{
    if n < 10 {
        seq![digit_char(n)]
    } else {
        decimal(n / 10).push(digit_char(n % 10))
    }
}

/// What is said of a texture identifier that is not registered.
pub open spec fn bad_texture_text(id: usize) -> Seq<char> {
    "imgui render error: bad texture id '"@ + decimal(id as nat) + "'"@
}

/// `format!` with one `{}` for an unsigned integer: the text around it, with
/// the integer in decimal digits in its place.
#[verifier::external_body]
fn format_bad_texture(id: usize) -> (text: String)
    ensures
        text@ == bad_texture_text(id),
{
    format!("imgui render error: bad texture id '{}'", id)
}

impl RendererError {
    /// The error in words.
    pub fn to_string(&self) -> (text: String)
        ensures
            text@ == match *self {
                RendererError::BadTexture(id) => bad_texture_text(id.value()),
            },
    {
        match *self {
            RendererError::BadTexture(id) => format_bad_texture(id.id()),
        }
    }
}

} // verus!
