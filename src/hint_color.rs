use vstd::prelude::*;

verus! {

/// A colour that text can take in an in-game message.
#[derive(Clone, Copy, Debug, PartialEq, Eq, Hash, Structural)]
pub enum HintColor {
    Attention,
    Name,
    Green,
    Blue,
    Purple,
    Beige,
}

impl HintColor {
    /// The markup that starts text of this colour.
    pub open spec fn open_tag(self) -> &'static str {
        match self {
            HintColor::Attention => "<attention>",
            HintColor::Name => "<name>",
            HintColor::Green => "<green>",
            HintColor::Blue => "<blue>",
            HintColor::Purple => "<purple>",
            HintColor::Beige => "<beige>",
        }
    }

    /// The markup that ends text of any colour.
    pub open spec fn close_tag() -> &'static str {
        "</>"
    }

    /// `text` wrapped in this colour's markup.
    pub open spec fn markup(self, text: Seq<char>) -> Seq<char> {
        self.open_tag()@ + text + Self::close_tag()@
    }

    pub fn format(&self, text: &str) -> (r: String)
        ensures
            r@ == self.markup(text@),
    {
        let open: &str = match *self {
            HintColor::Attention => "<attention>",
            HintColor::Name => "<name>",
            HintColor::Green => "<green>",
            HintColor::Blue => "<blue>",
            HintColor::Purple => "<purple>",
            HintColor::Beige => "<beige>",
        };
        let mut r = String::from_str(open);
        r.append(text);
        r.append("</>");
        r
    }
}

} // verus!
