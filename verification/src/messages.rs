//! The comment bodies that the app writes on pull requests.

use vstd::prelude::*;

verus! {

/// The app's name, shown in every comment it writes.
pub const NAME: &'static str = "PureFF";

/// The comment posted while a pull request can be fast-forward merged: the box is unticked.
pub const UNCHECKED: &'static str = "### \u{23e9} PureFF\n\n- [ ] Check this box to fast-forward merge this PR\n";

/// The same comment with the box ticked: the request to merge.
pub const CHECKED: &'static str = "### \u{23e9} PureFF\n\n- [x] Check this box to fast-forward merge this PR\n";

/// The comment after the app has merged the pull request.
pub const MERGED: &'static str = "### \u{23e9} Successfully merged by PureFF\n";

/// The comment while the branch cannot be fast-forward merged.
pub const NOT_MERGEABLE: &'static str = "### \u{23e9} PureFF\n\n\u{26a0}\u{fe0f} This PR cannot be fast-forward merged. Please rebase your branch.\n";

/// The four bodies that the app writes.
#[derive(PartialEq, Eq, Structural, Clone, Copy, Debug)]
pub enum BotMessage {
    Unchecked,
    Checked,
    Merged,
    NotMergeable,
}

impl BotMessage {
    /// The text of the message.
    pub open spec fn spec_text(self) -> Seq<char> {
        match self {
            BotMessage::Unchecked => UNCHECKED@,
            BotMessage::Checked => CHECKED@,
            BotMessage::Merged => MERGED@,
            BotMessage::NotMergeable => NOT_MERGEABLE@,
        }
    }

    /// Returns the text of the message.
    pub fn text(&self) -> (s: &'static str)
        ensures
            s@ == self.spec_text(),
    {
        match self {
            BotMessage::Unchecked => UNCHECKED,
            BotMessage::Checked => CHECKED,
            BotMessage::Merged => MERGED,
            BotMessage::NotMergeable => NOT_MERGEABLE,
        }
    }
}

/// No two of the app's messages have the same text.
pub proof fn lemma_messages_distinct(a: BotMessage, b: BotMessage)
    ensures
        a.spec_text() == b.spec_text() <==> a == b,
{
    reveal_strlit("### \u{23e9} PureFF\n\n- [ ] Check this box to fast-forward merge this PR\n");
    reveal_strlit("### \u{23e9} PureFF\n\n- [x] Check this box to fast-forward merge this PR\n");
    reveal_strlit("### \u{23e9} Successfully merged by PureFF\n");
    reveal_strlit("### \u{23e9} PureFF\n\n\u{26a0}\u{fe0f} This PR cannot be fast-forward merged. Please rebase your branch.\n");
    if a != b {
        assert(a.spec_text()[7] != b.spec_text()[7] || a.spec_text()[17] != b.spec_text()[17]
            || a.spec_text().len() != b.spec_text().len());
    }
}

} // verus!
