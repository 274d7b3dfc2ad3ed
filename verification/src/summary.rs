//! Shared behaviour: things that can be summed up in a line of text.

use vstd::prelude::*;

verus! {

/// A thing that can be summed up in a line of text.
///
/// What the line says is for each type to decide, so each type states it
/// on its own `summarize`.
pub trait Summary {
    /// Whether the type replaces the notice of
    /// [`Summary::summarizeDefalt`] by one of its own. A type that does so
    /// says so here.
    open spec fn has_own_notice(&self) -> bool {
        false
    }

    /// The thing summed up in one line.
    fn summarize(&self) -> String;

    /// A short notice in place of the summary: `Read more...`, unless the
    /// type has a notice of its own.
    #[allow(non_snake_case)]
    fn summarizeDefalt(&self) -> (text: String)
        ensures
            !self.has_own_notice() ==> text@ == "Read more..."@,
    {
        "Read more...".to_owned()
    }
}

/// An article.
pub struct Post {
    pub title: String,
    pub author: String,
    pub content: String,
}

impl Summary for Post {
    /// Names the article and its author.
    fn summarize(&self) -> (text: String)
        ensures
            text@ == "文章"@ + self.title@ + ",作者是"@ + self.author@,
    {
        let mut text = String::new();
        text.append("文章");
        text.append(self.title.as_str());
        text.append(",作者是");
        text.append(self.author.as_str());
        text
    }
}

/// A short public message.
pub struct Weibo {
    pub username: String,
    pub content: String,
}

impl Summary for Weibo {
    open spec fn has_own_notice(&self) -> bool {
        true
    }

    /// Names the writer and gives the message.
    fn summarize(&self) -> (text: String)
        ensures
            text@ == self.username@ + "发表了微博"@ + self.content@,
    {
        let mut text = String::new();
        text.append(self.username.as_str());
        text.append("发表了微博");
        text.append(self.content.as_str());
        text
    }

    /// A notice of its own: the message is too long to read.
    #[allow(non_snake_case)]
    fn summarizeDefalt(&self) -> (text: String)
        ensures
            text@ == "微博内容太长了，不想看"@,
    {
        "微博内容太长了，不想看".to_owned()
    }
}

} // verus!
