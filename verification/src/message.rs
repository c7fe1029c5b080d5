//! Messages that the caller translates.

use vstd::prelude::*;

verus! {

/// A text with named places: the English text, which is also the key of the
/// translation, and what stands in each place.
#[derive(Debug)]
pub struct Message {
    pub key: &'static str,
    pub args: Vec<(&'static str, String)>,
}

/// What a message says.
#[verifier::ext_equal]
pub struct MessageModel {
    pub key: Seq<char>,
    pub args: Seq<(Seq<char>, Seq<char>)>,
}

impl View for Message {
    type V = MessageModel;

    open spec fn view(&self) -> MessageModel {
        MessageModel {
            key: self.key@,
            args: Seq::new(self.args@.len(), |i: int| (self.args@[i].0@, self.args@[i].1@)),
        }
    }
}

/// A message without places.
pub open spec fn plain(key: Seq<char>) -> MessageModel {
    MessageModel { key, args: Seq::empty() }
}

/// A message with one place.
pub open spec fn with_one(key: Seq<char>, name: Seq<char>, value: Seq<char>) -> MessageModel {
    MessageModel { key, args: seq![(name, value)] }
}

impl Message {
    /// A message without places.
    pub fn plain(key: &'static str) -> (r: Message)
        ensures
            r@ == plain(key@),
    {
        Message { key, args: Vec::new() }
    }

    /// This message with one more place filled.
    pub fn with(self, name: &'static str, value: String) -> (r: Message)
        ensures
            r@ == (MessageModel { key: self@.key, args: self@.args.push((name@, value@)) }),
    {
        let mut m: Message = self;
        let ghost before = m@.args;
        let ghost v = value@;
        m.args.push((name, value));
        assert(m@.args =~= before.push((name@, v)));
        m
    }
}

/// A text that stands as it is, or a message.
#[derive(Debug)]
pub enum Line {
    Plain(String),
    Keyed(Message),
}

/// What a line says.
#[verifier::ext_equal]
pub enum LineModel {
    Plain(Seq<char>),
    Keyed(MessageModel),
}

impl View for Line {
    type V = LineModel;

    open spec fn view(&self) -> LineModel {
        match *self {
            Line::Plain(s) => LineModel::Plain(s@),
            Line::Keyed(m) => LineModel::Keyed(m@),
        }
    }
}

/// A message with one place.
pub fn one(key: &'static str, name: &'static str, value: String) -> (r: Message)
    ensures
        r@ == with_one(key@, name@, value@),
{
    let m: Message = Message::plain(key).with(name, value);
    assert(m@.args =~= with_one(key@, name@, value@).args);
    m
}

/// What the messages of a list say.
pub open spec fn message_models(v: Seq<Message>) -> Seq<MessageModel> {
    Seq::new(v.len(), |i: int| v[i]@)
}

} // verus!
