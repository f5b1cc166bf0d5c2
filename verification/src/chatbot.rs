//! A small chatbot that answers a fixed set of phrases.

use crate::text::{
    leading_ws, lemma_trim_ws_frame, lemma_ws_parts, lowercase, str_is, to_lowercase, trailing_ws, trim,
    trim_str,
};
use vstd::prelude::*;

verus! {

/// A very basic chatbot: it holds a name and answers a few fixed phrases.
pub struct Chatbot {
    name: String,
}

impl View for Chatbot {
    type V = Seq<char>;

    /// The bot's name.
    closed spec fn view(&self) -> Seq<char> {
        self.name@
    }
}

/// The reply to a normalized (lowercased and trimmed) input, for a bot named `name`.
pub open spec fn reply(name: Seq<char>, key: Seq<char>) -> Seq<char> {
    if key == "hi"@ || key == "hello"@ {
        "Hello! How can I help you today?"@
    } else if key == "how are you?"@ {
        "I'm just code, but I'm running smoothly."@
    } else if key == "what's your name?"@ {
        "My name is "@ + name + "."@
    } else if key == "help"@ {
        "Try typing 'hi', 'how are you?', or 'what's your name?'."@
    } else {
        "I'm not sure how to respond to that."@
    }
}

/// The message of the error for input that is empty once trimmed.
pub open spec fn empty_input_message() -> Seq<char> {
    "Input cannot be empty."@
}

impl Chatbot {
    /// Creates a chatbot with the given name.
    pub fn new(name: &str) -> (bot: Chatbot)
        ensures
            bot@ == name@,
    {
        Chatbot { name: name.to_string() }
    }

    /// The reply to input that has already been lowercased; it is trimmed here.
    pub fn respond_lowered(&self, lowered: &str) -> (r: String)
        ensures
            r@ == reply(self@, trim(lowered@)),
    {
        let key = trim_str(lowered);
        let k = key.as_str();
        if str_is(k, "hi") || str_is(k, "hello") {
            "Hello! How can I help you today?".to_string()
        } else if str_is(k, "how are you?") {
            "I'm just code, but I'm running smoothly.".to_string()
        } else if str_is(k, "what's your name?") {
            let mut r = "My name is ".to_string();
            r.append(self.name.as_str());
            r.append(".");
            r
        } else if str_is(k, "help") {
            "Try typing 'hi', 'how are you?', or 'what's your name?'.".to_string()
        } else {
            "I'm not sure how to respond to that.".to_string()
        }
    }

    /// Responds to user input; unknown input gets a fallback reply.
    pub fn respond(&self, input: &str) -> (r: String)
        ensures
            r@ == reply(self@, trim(lowercase(input@))),
            r@ == response(self@, input@),
    {
        let lowered = to_lowercase(input);
        proof {
            lemma_ws_parts(input@);
            lemma_trim_ws_frame(
                leading_ws(input@),
                lowercase(trim(input@)),
                trailing_ws(input@),
            );
        }
        self.respond_lowered(lowered.as_str())
    }

    /// Like `respond`, but input that is empty once trimmed is an error.
    pub fn try_respond(&self, input: &str) -> (r: Result<String, String>)
        ensures
            trim(input@).len() == 0 <==> r is Err,
            r matches Err(e) ==> e@ == empty_input_message(),
            r matches Ok(s) ==> s@ == response(self@, input@),
            match r {
                Ok(s) => try_response(self@, input@) == Ok::<Seq<char>, Seq<char>>(s@),
                Err(e) => try_response(self@, input@) == Err::<Seq<char>, Seq<char>>(e@),
            },
    {
        let trimmed = trim_str(input);
        if trimmed.as_str().is_empty() {
            return Err("Input cannot be empty.".to_string());
        }
        Ok(self.respond(trimmed.as_str()))
    }
}

/// What `respond` answers a bot named `name` for `input`: the reply for the input trimmed
/// and lowercased. Lowercasing keeps the whitespace around a text, so trimming before it
/// or after it gives the same key.
pub open spec fn response(name: Seq<char>, input: Seq<char>) -> Seq<char> {
    reply(name, trim(lowercase(trim(input))))
}

/// What `try_respond` gives a bot named `name` for `input`.
pub open spec fn try_response(name: Seq<char>, input: Seq<char>) -> Result<Seq<char>, Seq<char>> {
    if trim(input).len() == 0 {
        Err(empty_input_message())
    } else {
        Ok(reply(name, trim(lowercase(trim(input)))))
    }
}

/// `try_respond` refuses exactly the input that is blank, with "Input cannot be empty.",
/// and otherwise answers what `respond` answers for the same input.
pub proof fn lemma_try_respond_is_respond(name: Seq<char>, input: Seq<char>)
    ensures
        try_response(name, input) == (if trim(input).len() == 0 {
            Err::<Seq<char>, Seq<char>>(empty_input_message())
        } else {
            Ok::<Seq<char>, Seq<char>>(response(name, input))
        }),
{
}

} // verus!
