use vstd::prelude::*;
use vstd::string::*;

verus! {

/// Something that can be summed up in a line.
pub trait Summary {
    /// The text that names the author.
    spec fn author_handle(&self) -> Seq<char>;

    /// Who wrote it.
    fn summarize_author(&self) -> (r: String)
        ensures
            r@ == self.author_handle(),
    ;

    /// A pointer to the author's other writing.
    fn summarize(&self) -> (r: String)
        ensures
            r@ == "(Read more from "@ + self.author_handle() + ")"@,
    {
        let who = self.summarize_author();
        read_more_from(who.as_str())
    }
}

/// A news story.
pub struct NewsArticle {
    pub headline: String,
    pub location: String,
    pub author: String,
    pub content: String,
}

/// `"(Read more from " + author + ")"`.
pub fn read_more_from(author: &str) -> (r: String)
    ensures
        r@ == "(Read more from "@ + author@ + ")"@,
{
    let mut r = String::from_str("(Read more from ");
    r.append(author);
    r.append(")");
    r
}

impl Summary for NewsArticle {
    /// `"@" + author`.
    open spec fn author_handle(&self) -> Seq<char> {
        "@"@ + self.author@
    }

    fn summarize_author(&self) -> (r: String) {
        let mut r = String::from_str("@");
        r.append(self.author.as_str());
        r
    }
}

} // verus!
