//! The executor: resolving one instruction against the scene, invoking the
//! kind-specific behavior, and formatting the narrative response.  The
//! resolution order is uniform across the object-directed instructions:
//! vocabulary failure first, presence failure second, only then the
//! entity's own behavior, with a fixed action-specific suffix appended on a
//! capability failure.

use vstd::prelude::*;
use vstd::string::StringExecFns;

use crate::parser::{EntityIdent, Instruction, InstructionView};
use crate::scene::{
    apple_consume_result, apple_describe_msg, book_describe_msg, book_read_msg, find_in, kind_of,
    lemma_find_in_props, wrench_describe_msg, BookView, Entity, EntityView, Scene,
};

verus! {

/// The fixed scene summary that `look` always returns.
pub open spec fn look_msg() -> Seq<char> {
    "You look around and see an apple and a book."@
}

/// The vocabulary-failure message: the noun maps to no known object kind.
pub open spec fn never_heard_msg(token: Seq<char>) -> Seq<char> {
    "You've never heard of a "@ + token + "."@
}

/// The presence-failure message: the noun is valid vocabulary, but no such
/// entity is part of this scene.
pub open spec fn cant_find_msg(token: Seq<char>) -> Seq<char> {
    "You look around but you can't find a "@ + token + " here."@
}

/// The fixed suffix appended to every refused consume attempt.
pub open spec fn eat_refusal_suffix() -> Seq<char> {
    " You decide not to eat it."@
}

/// The fixed suffix appended to every refused read attempt.
pub open spec fn read_refusal_suffix() -> Seq<char> {
    " You leave it alone."@
}

/// The capability-failure message for eating a book.
pub open spec fn not_food_msg() -> Seq<char> {
    "It's not food."@
}

/// The capability-failure message for eating a wrench.
pub open spec fn bite_wrench_msg() -> Seq<char> {
    "You bite down hard. Ouch!"@
}

/// The capability-failure message for reading anything but a book.
pub open spec fn nothing_to_read_msg() -> Seq<char> {
    "There's nothing to read."@
}

/// How an entity describes itself.
pub open spec fn entity_describe_msg(e: EntityView) -> Seq<char> {
    match e {
        EntityView::Apple { consumed } => apple_describe_msg(consumed),
        EntityView::Book(b) => book_describe_msg(b),
        EntityView::Wrench => wrench_describe_msg(),
    }
}

/// The outcome of one consume attempt against an entity: only the apple is
/// food, and every other kind fails with its fixed default message.
pub open spec fn entity_consume_result(e: EntityView) -> Result<Seq<char>, Seq<char>> {
    match e {
        EntityView::Apple { consumed } => apple_consume_result(consumed),
        EntityView::Book(_) => Err(not_food_msg()),
        EntityView::Wrench => Err(bite_wrench_msg()),
    }
}

/// The entity after a consume attempt: an apple ends up consumed, every
/// other kind is untouched.
pub open spec fn entity_after_consume(e: EntityView) -> EntityView {
    match e {
        EntityView::Apple { consumed } => EntityView::Apple { consumed: true },
        _ => e,
    }
}

/// The outcome of one read attempt against an entity: only the book is
/// readable, and reading it always succeeds.
pub open spec fn entity_read_result(e: EntityView) -> Result<Seq<char>, Seq<char>> {
    match e {
        EntityView::Book(b) => Ok(book_read_msg(b)),
        _ => Err(nothing_to_read_msg()),
    }
}

/// The narrative response of one executed instruction against the given
/// scene.  `Exit` never reaches the executor, so its response is left
/// empty.
pub open spec fn response_of(s: Seq<EntityView>, i: InstructionView) -> Seq<char> {
    match i {
        InstructionView::Exit => Seq::<char>::empty(),
        InstructionView::Look => look_msg(),
        InstructionView::Describe(kind, token) => match kind {
            None => never_heard_msg(token),
            Some(k) => match find_in(s, k) {
                None => cant_find_msg(token),
                Some(idx) => entity_describe_msg(s[idx]),
            },
        },
        InstructionView::Consume(kind, token) => match kind {
            None => never_heard_msg(token),
            Some(k) => match find_in(s, k) {
                None => cant_find_msg(token),
                Some(idx) => match entity_consume_result(s[idx]) {
                    Ok(msg) => msg,
                    Err(msg) => msg + eat_refusal_suffix(),
                },
            },
        },
        InstructionView::Read(kind, token) => match kind {
            None => never_heard_msg(token),
            Some(k) => match find_in(s, k) {
                None => cant_find_msg(token),
                Some(idx) => match entity_read_result(s[idx]) {
                    Ok(msg) => msg,
                    Err(msg) => msg + read_refusal_suffix(),
                },
            },
        },
    }
}

/// The scene after one executed instruction: only a consume attempt against
/// a present entity touches the scene, and it touches exactly that entity.
pub open spec fn scene_after(s: Seq<EntityView>, i: InstructionView) -> Seq<EntityView> {
    match i {
        InstructionView::Consume(kind, token) => match kind {
            Some(k) => match find_in(s, k) {
                Some(idx) => s.update(idx, entity_after_consume(s[idx])),
                None => s,
            },
            None => s,
        },
        _ => s,
    }
}

/// The given text followed by the vocabulary-failure tail.
fn never_heard(token: &str) -> (r: String)
    ensures
        r@ == never_heard_msg(token@),
{
    let mut r = String::from_str("You've never heard of a ");
    r.append(token);
    r.append(".");
    r
}

/// The given text framed by the presence-failure message.
fn cant_find(token: &str) -> (r: String)
    ensures
        r@ == cant_find_msg(token@),
{
    let mut r = String::from_str("You look around but you can't find a ");
    r.append(token);
    r.append(" here.");
    r
}

/// A failure message with its action-specific suffix appended.
fn suffixed(msg: &str, suffix: &str) -> (r: String)
    ensures
        r@ == msg@ + suffix@,
{
    let mut r = String::from_str(msg);
    r.append(suffix);
    r
}

impl Scene {
    /// Executes one instruction against this scene and returns the
    /// narrative response.  `Exit` is the caller's sentinel and must be
    /// intercepted before the scene is consulted.
    pub fn do_instruction(&mut self, instruction: Instruction) -> (r: String)
        requires
            old(self).wf(),
            instruction@ != InstructionView::Exit,
        ensures
            final(self).wf(),
            r@ == response_of(old(self)@, instruction@),
            final(self)@ == scene_after(old(self)@, instruction@),
    {
        match instruction {
            Instruction::Exit => vstd::pervasive::unreached(),
            Instruction::Look => String::from_str("You look around and see an apple and a book."),
            Instruction::Describe(kind, token) => match kind {
                None => never_heard(token.as_str()),
                Some(ident) => match self.find_entity(ident) {
                    None => cant_find(token.as_str()),
                    Some(i) => {
                        proof {
                            lemma_find_in_props(self@, ident);
                        }
                        match &self.entities[i] {
                            Entity::Apple(a) => a.describe(),
                            Entity::Book(b) => b.describe(),
                            Entity::Wrench(w) => w.describe(),
                        }
                    },
                },
            },
            Instruction::Consume(kind, token) => match kind {
                None => never_heard(token.as_str()),
                Some(ident) => match self.find_entity(ident) {
                    None => cant_find(token.as_str()),
                    Some(i) => {
                        proof {
                            lemma_find_in_props(self@, ident);
                        }
                        let ghost pre = self@;
                        let e = self.entities.remove(i);
                        let response = match e {
                            Entity::Apple(mut a) => {
                                let outcome = a.consume();
                                self.entities.insert(i, Entity::Apple(a));
                                match outcome {
                                    Ok(s) => s,
                                    Err(msg) => suffixed(msg, " You decide not to eat it."),
                                }
                            },
                            Entity::Book(b) => {
                                self.entities.insert(i, Entity::Book(b));
                                suffixed("It's not food.", " You decide not to eat it.")
                            },
                            Entity::Wrench(w) => {
                                self.entities.insert(i, Entity::Wrench(w));
                                suffixed("You bite down hard. Ouch!", " You decide not to eat it.")
                            },
                        };
                        proof {
                            assert(self@ =~= pre.update(i as int, entity_after_consume(pre[i as int])));
                            assert forall|p: int, q: int|
                                0 <= p < q < self@.len() implies kind_of(self@[p]) != kind_of(
                                self@[q],
                            ) by {
                                assert(kind_of(self@[p]) == kind_of(pre[p]));
                                assert(kind_of(self@[q]) == kind_of(pre[q]));
                            }
                        }
                        response
                    },
                },
            },
            Instruction::Read(kind, token) => match kind {
                None => never_heard(token.as_str()),
                Some(ident) => match self.find_entity(ident) {
                    None => cant_find(token.as_str()),
                    Some(i) => {
                        proof {
                            lemma_find_in_props(self@, ident);
                        }
                        match &self.entities[i] {
                            Entity::Book(b) => match b.read() {
                                Ok(s) => s,
                                Err(msg) => suffixed(msg, " You leave it alone."),
                            },
                            Entity::Apple(_) => suffixed(
                                "There's nothing to read.",
                                " You leave it alone.",
                            ),
                            Entity::Wrench(_) => suffixed(
                                "There's nothing to read.",
                                " You leave it alone.",
                            ),
                        }
                    },
                },
            },
        }
    }
}

/// Vocabulary failure comes first: with the kind slot absent the executor
/// answers the vocabulary-failure message echoing the token, whatever the
/// scene holds, and the scene is untouched.  Presence and capability are
/// never consulted.
pub proof fn lemma_vocabulary_failure_first(s: Seq<EntityView>, token: Seq<char>)
    ensures
        response_of(s, InstructionView::Describe(None, token)) == never_heard_msg(token),
        response_of(s, InstructionView::Consume(None, token)) == never_heard_msg(token),
        response_of(s, InstructionView::Read(None, token)) == never_heard_msg(token),
        scene_after(s, InstructionView::Describe(None, token)) == s,
        scene_after(s, InstructionView::Consume(None, token)) == s,
        scene_after(s, InstructionView::Read(None, token)) == s,
{
}

/// The vocabulary-failure and presence-failure messages are distinct,
/// whatever token they echo.
pub proof fn lemma_failure_messages_distinct(token: Seq<char>)
    ensures
        never_heard_msg(token) != cant_find_msg(token),
{
    reveal_strlit("You've never heard of a ");
    reveal_strlit("You look around but you can't find a ");
    assert(never_heard_msg(token)[3] == '\'');
    assert(cant_find_msg(token)[3] == ' ');
}

/// Consuming a book is refused with the fixed not-food message and the
/// fixed refusal suffix, and leaves the scene exactly as it was — so the
/// outcome is the same however many times it is attempted.
pub proof fn lemma_consume_book_always_fails(s: Seq<EntityView>, token: Seq<char>)
    requires
        find_in(s, EntityIdent::Book) is Some,
    ensures
        response_of(s, InstructionView::Consume(Some(EntityIdent::Book), token)) == not_food_msg()
            + eat_refusal_suffix(),
        scene_after(s, InstructionView::Consume(Some(EntityIdent::Book), token)) == s,
{
    lemma_find_in_props(s, EntityIdent::Book);
    let idx = find_in(s, EntityIdent::Book)->0;
    assert(s[idx] is Book);
    assert(s.update(idx, entity_after_consume(s[idx])) =~= s);
}

/// Describing a present book returns exactly the book's own description,
/// with no suffix; consuming it returns exactly the not-food failure text
/// plus the fixed refusal suffix.
pub proof fn lemma_book_responses(s: Seq<EntityView>, token: Seq<char>, b: BookView)
    requires
        find_in(s, EntityIdent::Book) matches Some(idx) && s[idx] == EntityView::Book(b),
    ensures
        response_of(s, InstructionView::Describe(Some(EntityIdent::Book), token))
            == book_describe_msg(b),
        response_of(s, InstructionView::Consume(Some(EntityIdent::Book), token)) == not_food_msg()
            + eat_refusal_suffix(),
{
}

} // verus!
