//! The instruction grammar: a fixed verb set (`exit`, `look`, `eat`, `read`),
//! one optional filler word `the`, and single-word nouns resolved against the
//! vocabulary.  A line that fits no pattern yields the one fixed parse-failure
//! message; an unrecognized noun still parses, with the kind slot absent and
//! the word retained for diagnostics.

use vstd::prelude::*;

use crate::text::{lemma_split_len, str_eq, tokenize, tokens_of, trim_spec};

verus! {

/// A closed identifier for a category of world object.  Produced only by
/// vocabulary resolution; it names which live entity to look up and carries
/// no state of its own.
#[derive(Clone, Copy, Debug, PartialEq, Eq, Structural)]
pub enum EntityIdent {
    Apple,
    Book,
    Wrench,
}

/// The parsed, typed representation of one player command.  The `Option`
/// slot of the object-directed variants says whether vocabulary resolution
/// succeeded; the `String` is the exact word the player typed, kept so that
/// failure messages can echo it back.
#[derive(Debug, PartialEq, Eq)]
pub enum Instruction {
    Exit,
    Look,
    Describe(Option<EntityIdent>, String),
    Consume(Option<EntityIdent>, String),
    Read(Option<EntityIdent>, String),
}

/// The mathematical shadow of [`Instruction`], with the token as a sequence
/// of characters.
pub enum InstructionView {
    Exit,
    Look,
    Describe(Option<EntityIdent>, Seq<char>),
    Consume(Option<EntityIdent>, Seq<char>),
    Read(Option<EntityIdent>, Seq<char>),
}

impl View for Instruction {
    type V = InstructionView;

    open spec fn view(&self) -> InstructionView {
        match self {
            Instruction::Exit => InstructionView::Exit,
            Instruction::Look => InstructionView::Look,
            Instruction::Describe(kind, token) => InstructionView::Describe(*kind, token@),
            Instruction::Consume(kind, token) => InstructionView::Consume(*kind, token@),
            Instruction::Read(kind, token) => InstructionView::Read(*kind, token@),
        }
    }
}

/// The vocabulary: which words name an object kind.  Total and independent
/// of the scene; an unknown word resolves to `None`, which is an answer,
/// not an error.
pub open spec fn resolve_token(word: Seq<char>) -> Option<EntityIdent> {
    if word == "apple"@ {
        Some(EntityIdent::Apple)
    } else if word == "book"@ {
        Some(EntityIdent::Book)
    } else if word == "wrench"@ {
        Some(EntityIdent::Wrench)
    } else {
        None
    }
}

/// The instruction that a given token sequence denotes, or `None` where the
/// sequence fits no pattern of the grammar.
pub open spec fn parse_tokens(toks: Seq<Seq<char>>) -> Option<InstructionView> {
    if toks.len() == 0 {
        None
    } else if toks[0] == "exit"@ {
        if toks.len() == 1 {
            Some(InstructionView::Exit)
        } else {
            None
        }
    } else if toks[0] == "look"@ {
        if toks.len() == 1 {
            Some(InstructionView::Look)
        } else if toks.len() == 3 && toks[1] == "at"@ {
            Some(InstructionView::Describe(resolve_token(toks[2]), toks[2]))
        } else if toks.len() == 4 && toks[1] == "at"@ && toks[2] == "the"@ {
            Some(InstructionView::Describe(resolve_token(toks[3]), toks[3]))
        } else {
            None
        }
    } else if toks[0] == "eat"@ {
        if toks.len() == 2 {
            Some(InstructionView::Consume(resolve_token(toks[1]), toks[1]))
        } else if toks.len() == 3 && toks[1] == "the"@ {
            Some(InstructionView::Consume(resolve_token(toks[2]), toks[2]))
        } else {
            None
        }
    } else if toks[0] == "read"@ {
        if toks.len() == 2 {
            Some(InstructionView::Read(resolve_token(toks[1]), toks[1]))
        } else if toks.len() == 3 && toks[1] == "the"@ {
            Some(InstructionView::Read(resolve_token(toks[2]), toks[2]))
        } else {
            None
        }
    } else {
        None
    }
}

/// What a raw command line parses to: tokenize it, then read the tokens
/// against the grammar.
pub open spec fn spec_parse(line: Seq<char>) -> Option<InstructionView> {
    parse_tokens(tokens_of(line))
}

/// The one fixed message for every malformed line.
pub open spec fn parse_failure_msg() -> Seq<char> {
    "I don't understand"@
}

impl EntityIdent {
    /// Resolves one lowercase word against the vocabulary.
    pub fn from_str(string: &str) -> (r: Option<EntityIdent>)
        ensures
            r == resolve_token(string@),
    {
        if str_eq(string, "apple") {
            Some(EntityIdent::Apple)
        } else if str_eq(string, "book") {
            Some(EntityIdent::Book)
        } else if str_eq(string, "wrench") {
            Some(EntityIdent::Wrench)
        } else {
            None
        }
    }
}

/// Turns one raw line into an instruction, or into the fixed parse-failure
/// message when the line fits no pattern of the grammar.
pub fn parse_instruction(instruction: String) -> (r: Result<Instruction, &'static str>)
    ensures
        match r {
            Ok(parsed) => spec_parse(instruction@) == Some(parsed@),
            Err(e) => spec_parse(instruction@) is None && e@ == parse_failure_msg(),
        },
{
    let tokens = tokenize(instruction.as_str());
    let n = tokens.len();
    if str_eq(tokens[0].as_str(), "exit") {
        if n == 1 {
            Ok(Instruction::Exit)
        } else {
            Err("I don't understand")
        }
    } else if str_eq(tokens[0].as_str(), "look") {
        if n == 1 {
            Ok(Instruction::Look)
        } else if n == 3 && str_eq(tokens[1].as_str(), "at") {
            let kind = EntityIdent::from_str(tokens[2].as_str());
            Ok(Instruction::Describe(kind, tokens[2].clone()))
        } else if n == 4 && str_eq(tokens[1].as_str(), "at") && str_eq(tokens[2].as_str(), "the") {
            let kind = EntityIdent::from_str(tokens[3].as_str());
            Ok(Instruction::Describe(kind, tokens[3].clone()))
        } else {
            Err("I don't understand")
        }
    } else if str_eq(tokens[0].as_str(), "eat") {
        if n == 2 {
            let kind = EntityIdent::from_str(tokens[1].as_str());
            Ok(Instruction::Consume(kind, tokens[1].clone()))
        } else if n == 3 && str_eq(tokens[1].as_str(), "the") {
            let kind = EntityIdent::from_str(tokens[2].as_str());
            Ok(Instruction::Consume(kind, tokens[2].clone()))
        } else {
            Err("I don't understand")
        }
    } else if str_eq(tokens[0].as_str(), "read") {
        if n == 2 {
            let kind = EntityIdent::from_str(tokens[1].as_str());
            Ok(Instruction::Read(kind, tokens[1].clone()))
        } else if n == 3 && str_eq(tokens[1].as_str(), "the") {
            let kind = EntityIdent::from_str(tokens[2].as_str());
            Ok(Instruction::Read(kind, tokens[2].clone()))
        } else {
            Err("I don't understand")
        }
    } else {
        Err("I don't understand")
    }
}

/// Any line whose first token is not one of the four verbs fails to parse.
pub proof fn lemma_parse_rejects_unknown_verb(line: Seq<char>)
    requires
        tokens_of(line)[0] != "exit"@,
        tokens_of(line)[0] != "look"@,
        tokens_of(line)[0] != "eat"@,
        tokens_of(line)[0] != "read"@,
    ensures
        spec_parse(line) is None,
{
    lemma_split_len(trim_spec(line));
}

/// Any line that is empty, or blank but for whitespace, fails to parse:
/// its single token is the empty word, which is no verb.
pub proof fn lemma_parse_rejects_blank(line: Seq<char>)
    requires
        trim_spec(line).len() == 0,
    ensures
        spec_parse(line) is None,
{
    reveal_strlit("exit");
    reveal_strlit("look");
    reveal_strlit("eat");
    reveal_strlit("read");
    assert(tokens_of(line) == seq![Seq::<char>::empty()]);
    assert("exit"@.len() == 4);
    assert("look"@.len() == 4);
    assert("eat"@.len() == 3);
    assert("read"@.len() == 4);
    lemma_parse_rejects_unknown_verb(line);
}

/// The filler word "the" is semantically inert: under every verb that takes
/// a noun, the pattern with "the" parses to exactly the instruction of the
/// pattern without it, whatever the noun.
pub proof fn lemma_filler_the_is_inert(noun: Seq<char>)
    ensures
        parse_tokens(seq!["look"@, "at"@, "the"@, noun]) == parse_tokens(
            seq!["look"@, "at"@, noun],
        ),
        parse_tokens(seq!["eat"@, "the"@, noun]) == parse_tokens(seq!["eat"@, noun]),
        parse_tokens(seq!["read"@, "the"@, noun]) == parse_tokens(seq!["read"@, noun]),
{
    reveal_strlit("exit");
    reveal_strlit("look");
    reveal_strlit("eat");
    reveal_strlit("read");
    reveal_strlit("at");
    reveal_strlit("the");
    assert("exit"@.len() == 4);
    assert("look"@.len() == 4);
    assert("eat"@.len() == 3);
    assert("read"@.len() == 4);
    assert("exit"@[0] == 'e');
    assert("look"@[0] == 'l');
    assert("read"@[0] == 'r');
    assert("eat"@ != "exit"@);
    assert("eat"@ != "look"@);
    assert("read"@ != "exit"@);
    assert("read"@ != "look"@);
}

} // verus!
