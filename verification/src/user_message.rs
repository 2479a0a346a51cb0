//! The messages a page shows its user: the errors of the last requests and
//! the success of the last one.

use vstd::prelude::*;

verus! {

/// The messages shown on a page.
pub struct UserMessage {
    pub error_messages: Vec<String>,
    pub success_message: Option<String>,
}

impl UserMessage {
    /// These are the messages of `before` with the error `m` added.
    pub open spec fn erred(self, before: UserMessage, m: Seq<char>) -> bool {
        &&& self.success_message == before.success_message
        &&& self.error_messages@.len() == before.error_messages@.len() + 1
        &&& self.error_messages@.drop_last() =~= before.error_messages@
        &&& self.error_messages@.last()@ == m
    }

    /// These are the messages of `before` with the success `m` shown.
    pub open spec fn succeeded(self, before: UserMessage, m: Seq<char>) -> bool {
        &&& self.error_messages == before.error_messages
        &&& self.success_message matches Some(s) && s@ == m
    }

    /// The only message is the error `m`.
    pub open spec fn only_error(self, m: Seq<char>) -> bool {
        &&& self.success_message is None
        &&& self.error_messages@.len() == 1
        &&& self.error_messages@[0]@ == m
    }

    /// The lines shown: `Success: ` and the success message, if any, then,
    /// where there are errors, `Failure: ` and every error in order.
    pub open spec fn shown_lines(self) -> Seq<Seq<char>> {
        (match self.success_message {
            Some(m) => seq!["Success: "@ + m@],
            None => Seq::empty(),
        }) + if self.error_messages@.len() > 0 {
            seq!["Failure: "@] + self.error_messages@.map_values(|e: String| e@)
        } else {
            Seq::empty()
        }
    }

    /// There is no message.
    pub open spec fn is_clear(self) -> bool {
        self.error_messages@.len() == 0 && self.success_message is None
    }

    /// No message.
    pub fn new() -> (m: UserMessage)
        ensures
            m.error_messages@.len() == 0,
            m.success_message is None,
    {
        UserMessage { error_messages: Vec::new(), success_message: None }
    }

    /// Clears every message.
    pub fn reset(&mut self)
        ensures
            final(self).error_messages@.len() == 0,
            final(self).success_message is None,
    {
        self.error_messages = Vec::new();
        self.success_message = None;
    }

    /// The lines shown for the messages.
    pub fn lines(&self) -> (r: Vec<String>)
        ensures
            r@.map_values(|l: String| l@) == self.shown_lines(),
    {
        let mut r: Vec<String> = Vec::new();
        match &self.success_message {
            Some(m) => {
                let mut l = String::from_str("Success: ");
                l.append(m.as_str());
                r.push(l);
            },
            None => {},
        }
        let ghost head = r@.map_values(|l: String| l@);
        assert(head =~= match self.success_message {
            Some(m) => seq!["Success: "@ + m@],
            None => Seq::<Seq<char>>::empty(),
        });
        if self.error_messages.len() > 0 {
            r.push(String::from_str("Failure: "));
            let mut i: usize = 0;
            while i < self.error_messages.len()
                invariant
                    i <= self.error_messages@.len(),
                    r@.map_values(|l: String| l@) == head + seq!["Failure: "@] + self.error_messages@.take(i as int).map_values(|e: String| e@),
                decreases self.error_messages.len() - i,
            {
                let ghost before = r@;
                let e = self.error_messages[i].clone();
                assert(e == self.error_messages@[i as int]);
                r.push(e);
                assert(r@ == before.push(e));
                assert(r@.map_values(|l: String| l@) =~= before.map_values(|l: String| l@).push(e@));
                assert(self.error_messages@.take(i as int + 1).map_values(|e: String| e@) =~= self.error_messages@.take(
                    i as int,
                ).map_values(|e: String| e@).push(e@));
                i = i + 1;
                assert(r@.map_values(|l: String| l@) =~= head + seq!["Failure: "@] + self.error_messages@.take(i as int).map_values(|e: String| e@));
            }
            assert(self.error_messages@.take(i as int) =~= self.error_messages@);
        }
        assert(r@.map_values(|l: String| l@) =~= self.shown_lines());
        r
    }

    /// Adds an error message after the others.
    pub fn push_error(&mut self, m: String)
        ensures
            final(self).error_messages@ == old(self).error_messages@.push(m),
            final(self).success_message == old(self).success_message,
    {
        self.error_messages.push(m);
    }

    /// Shows a success message in place of the last one.
    pub fn succeed(&mut self, m: String)
        ensures
            final(self).error_messages == old(self).error_messages,
            final(self).success_message == Some(m),
    {
        self.success_message = Some(m);
    }
}

/// A failure message: what failed, then the reason given.
pub fn failure_text(what: &str, reason: &str) -> (m: String)
    ensures
        m@ == what@ + reason@,
{
    let mut m = String::from_str(what);
    m.append(reason);
    m
}

} // verus!
