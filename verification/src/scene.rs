//! The entity model and the scene: the fixed roster of live world objects,
//! each with its kind-specific behavior and, for the apple, the one mutable
//! flag in the whole system.

use vstd::prelude::*;
use vstd::string::StringExecFns;

use crate::parser::EntityIdent;

verus! {

/// An apple: edible exactly once.
#[derive(Clone, Copy)]
pub struct Apple {
    pub consumed: bool,
}

/// A book: immutable title, author and contents.
pub struct Book {
    pub title: String,
    pub author: String,
    pub contents: String,
}

/// A wrench: an inert prop with no state and no behavior beyond its
/// description.
pub struct Wrench;

/// One live object instance of the scene.
pub enum Entity {
    Apple(Apple),
    Book(Book),
    Wrench(Wrench),
}

/// The fixed collection of entities present in the current session.
pub struct Scene {
    pub entities: Vec<Entity>,
}

/// The mathematical shadow of [`Book`].
pub struct BookView {
    pub title: Seq<char>,
    pub author: Seq<char>,
    pub contents: Seq<char>,
}

/// The mathematical shadow of [`Entity`].
pub enum EntityView {
    Apple { consumed: bool },
    Book(BookView),
    Wrench,
}

impl View for Book {
    type V = BookView;

    open spec fn view(&self) -> BookView {
        BookView { title: self.title@, author: self.author@, contents: self.contents@ }
    }
}

impl View for Entity {
    type V = EntityView;

    open spec fn view(&self) -> EntityView {
        match self {
            Entity::Apple(a) => EntityView::Apple { consumed: a.consumed },
            Entity::Book(b) => EntityView::Book(b@),
            Entity::Wrench(_) => EntityView::Wrench,
        }
    }
}

impl DeepView for Entity {
    type V = EntityView;

    open spec fn deep_view(&self) -> EntityView {
        self.view()
    }
}

impl View for Scene {
    type V = Seq<EntityView>;

    open spec fn view(&self) -> Seq<EntityView> {
        self.entities.deep_view()
    }
}

/// The kind an entity belongs to.
pub open spec fn kind_of(e: EntityView) -> EntityIdent {
    match e {
        EntityView::Apple { .. } => EntityIdent::Apple,
        EntityView::Book(_) => EntityIdent::Book,
        EntityView::Wrench => EntityIdent::Wrench,
    }
}

/// The index of the first entity of the given kind, if any is present.
pub open spec fn find_in(s: Seq<EntityView>, kind: EntityIdent) -> Option<int>
    decreases s.len(),
{
    if s.len() == 0 {
        None
    } else if kind_of(s.first()) == kind {
        Some(0)
    } else {
        match find_in(s.drop_first(), kind) {
            Some(i) => Some(i + 1),
            None => None,
        }
    }
}

/// No two entities of the scene share a kind.
pub open spec fn distinct_kinds(s: Seq<EntityView>) -> bool {
    forall|i: int, j: int| 0 <= i < j < s.len() ==> kind_of(s[i]) != kind_of(s[j])
}

pub proof fn lemma_find_in_props(s: Seq<EntityView>, kind: EntityIdent)
    ensures
        match find_in(s, kind) {
            Some(i) => 0 <= i < s.len() && kind_of(s[i]) == kind && (forall|j: int|
                0 <= j < i ==> kind_of(s[j]) != kind),
            None => forall|j: int| 0 <= j < s.len() ==> kind_of(s[j]) != kind,
        },
    decreases s.len(),
{
    if s.len() == 0 {
    } else if kind_of(s.first()) == kind {
    } else {
        let d = s.drop_first();
        lemma_find_in_props(d, kind);
        assert(forall|j: int| 0 <= j < d.len() ==> d[j] == s[j + 1]);
        match find_in(d, kind) {
            Some(i) => {
                assert(kind_of(s[i + 1]) == kind);
                assert forall|j: int| 0 <= j < i + 1 implies kind_of(s[j]) != kind by {
                    if j > 0 {
                        assert(d[j - 1] == s[j]);
                    }
                }
            },
            None => {
                assert forall|j: int| 0 <= j < s.len() implies kind_of(s[j]) != kind by {
                    if j > 0 {
                        assert(d[j - 1] == s[j]);
                    }
                }
            },
        }
    }
}

pub proof fn lemma_find_in_at(s: Seq<EntityView>, kind: EntityIdent, i: int)
    requires
        0 <= i < s.len(),
        kind_of(s[i]) == kind,
        forall|j: int| 0 <= j < i ==> kind_of(s[j]) != kind,
    ensures
        find_in(s, kind) == Some(i),
    decreases i,
{
    if i == 0 {
    } else {
        assert(forall|j: int| 0 <= j < s.len() - 1 ==> s.drop_first()[j] == s[j + 1]);
        lemma_find_in_at(s.drop_first(), kind, i - 1);
    }
}

pub proof fn lemma_find_in_none(s: Seq<EntityView>, kind: EntityIdent)
    requires
        forall|j: int| 0 <= j < s.len() ==> kind_of(s[j]) != kind,
    ensures
        find_in(s, kind) is None,
{
    lemma_find_in_props(s, kind);
    if find_in(s, kind) is Some {
        assert(kind_of(s[find_in(s, kind)->0]) == kind);
    }
}

/// How an unconsumed and a consumed apple describe themselves.
pub open spec fn apple_describe_msg(consumed: bool) -> Seq<char> {
    if !consumed {
        "It's a tempting red apple."@
    } else {
        "It's an apple core."@
    }
}

/// What eating the apple reports when it is still whole.
pub open spec fn apple_eaten_msg() -> Seq<char> {
    "It's delicious! All that's left is the core."@
}

/// What eating the apple reports once only the core is left.
pub open spec fn apple_core_refusal_msg() -> Seq<char> {
    "The core doesn't look appetising."@
}

/// The outcome of one consume attempt against an apple in the given state.
pub open spec fn apple_consume_result(consumed: bool) -> Result<Seq<char>, Seq<char>> {
    if !consumed {
        Ok(apple_eaten_msg())
    } else {
        Err(apple_core_refusal_msg())
    }
}

/// The apple's state after a consume attempt: consumed either way, since a
/// failed attempt changes nothing and a successful one eats it.
pub open spec fn apple_after_consume(a: Apple) -> Apple {
    Apple { consumed: true }
}

/// How a book describes itself.
pub open spec fn book_describe_msg(b: BookView) -> Seq<char> {
    "It's a book. The title reads \""@ + b.title + "\" by "@ + b.author + "."@
}

/// What reading a book returns: its contents, verbatim, under a fixed
/// heading.
pub open spec fn book_read_msg(b: BookView) -> Seq<char> {
    "The book reads:\n"@ + b.contents
}

/// How a wrench describes itself.
pub open spec fn wrench_describe_msg() -> Seq<char> {
    "It's a wrench."@
}

impl Apple {
    /// A fresh, unconsumed apple.
    pub fn new() -> (r: Apple)
        ensures
            !r.consumed,
    {
        Apple { consumed: false }
    }

    /// Describes the apple; the text depends only on whether it has been
    /// consumed, and the apple itself is untouched.
    pub fn describe(&self) -> (r: String)
        ensures
            r@ == apple_describe_msg(self.consumed),
    {
        if !self.consumed {
            String::from_str("It's a tempting red apple.")
        } else {
            String::from_str("It's an apple core.")
        }
    }

    /// Eats the apple.  Succeeds exactly once: the first attempt consumes
    /// it, every later attempt is refused with a distinct message and
    /// changes nothing further.
    pub fn consume(&mut self) -> (r: Result<String, &'static str>)
        ensures
            *final(self) == apple_after_consume(*old(self)),
            match r {
                Ok(s) => apple_consume_result(old(self).consumed) == Ok::<Seq<char>, Seq<char>>(
                    s@,
                ),
                Err(e) => apple_consume_result(old(self).consumed) == Err::<Seq<char>, Seq<char>>(
                    e@,
                ),
            },
    {
        if !self.consumed {
            self.consumed = true;
            Ok(String::from_str("It's delicious! All that's left is the core."))
        } else {
            Err("The core doesn't look appetising.")
        }
    }
}

impl Book {
    /// A book with the given title, author and contents.
    pub fn new(title: String, author: String, contents: String) -> (r: Book)
        ensures
            r@.title == title@,
            r@.author == author@,
            r@.contents == contents@,
    {
        Book { title, author, contents }
    }

    /// Describes the book by its title and author.
    pub fn describe(&self) -> (r: String)
        ensures
            r@ == book_describe_msg(self@),
    {
        let mut r = String::from_str("It's a book. The title reads \"");
        r.append(self.title.as_str());
        r.append("\" by ");
        r.append(self.author.as_str());
        r.append(".");
        r
    }

    /// Reads the book: always succeeds, returning its contents verbatim.
    pub fn read(&self) -> (r: Result<String, &'static str>)
        ensures
            r matches Ok(s) && s@ == book_read_msg(self@),
    {
        let mut r = String::from_str("The book reads:\n");
        r.append(self.contents.as_str());
        Ok(r)
    }
}

impl Wrench {
    /// A wrench.
    pub fn new() -> (r: Wrench) {
        Wrench
    }

    /// Describes the wrench.
    pub fn describe(&self) -> (r: String)
        ensures
            r@ == wrench_describe_msg(),
    {
        String::from_str("It's a wrench.")
    }
}

impl Entity {
    /// The kind this entity belongs to.
    pub fn kind(&self) -> (k: EntityIdent)
        ensures
            k == kind_of(self@),
    {
        match self {
            Entity::Apple(_) => EntityIdent::Apple,
            Entity::Book(_) => EntityIdent::Book,
            Entity::Wrench(_) => EntityIdent::Wrench,
        }
    }
}

impl Scene {
    /// Well-formedness: at most one live entity per kind.
    pub open spec fn wf(&self) -> bool {
        distinct_kinds(self@)
    }

    /// A scene owning exactly the given roster, one entity per kind.
    pub fn new(entities: Vec<Entity>) -> (r: Scene)
        requires
            distinct_kinds(entities.deep_view()),
        ensures
            r@ == entities.deep_view(),
            r.wf(),
    {
        Scene { entities }
    }

    /// The position of the live entity of the given kind, or `None` where
    /// no entity of that kind is part of this scene.
    pub fn find_entity(&self, ident: EntityIdent) -> (r: Option<usize>)
        ensures
            match r {
                Some(i) => find_in(self@, ident) == Some(i as int),
                None => find_in(self@, ident) is None,
            },
    {
        let n = self.entities.len();
        let mut i: usize = 0;
        while i < n
            invariant
                i <= n,
                n == self.entities@.len(),
                self@.len() == n,
                forall|j: int| 0 <= j < i ==> kind_of(self@[j]) != ident,
            decreases n - i,
        {
            if self.entities[i].kind() == ident {
                proof {
                    lemma_find_in_at(self@, ident, i as int);
                }
                return Some(i);
            }
            i = i + 1;
        }
        proof {
            lemma_find_in_none(self@, ident);
        }
        None
    }
}

/// Description is read-only and repeatable: any two descriptions of the
/// same apple, in the same state, are the identical string.
pub proof fn lemma_describe_idempotent(a: Apple, first: Seq<char>, second: Seq<char>)
    requires
        first == apple_describe_msg(a.consumed),
        second == apple_describe_msg(a.consumed),
    ensures
        first == second,
{
}

/// The apple's one-shot transition: from a whole apple, the first consume
/// attempt succeeds and consumes it, the second is refused with the
/// distinct already-consumed message, and no further attempt moves the
/// apple to any third state.
pub proof fn lemma_consume_one_shot(a: Apple)
    requires
        !a.consumed,
    ensures
        apple_consume_result(a.consumed) == Ok::<Seq<char>, Seq<char>>(apple_eaten_msg()),
        apple_after_consume(a).consumed,
        apple_consume_result(apple_after_consume(a).consumed) == Err::<Seq<char>, Seq<char>>(
            apple_core_refusal_msg(),
        ),
        apple_after_consume(apple_after_consume(a)) == apple_after_consume(a),
{
}

} // verus!
