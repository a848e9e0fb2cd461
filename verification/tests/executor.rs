use adventure::{parse_instruction, Apple, Book, Entity, EntityIdent, Instruction, Scene, Wrench};

fn default_scene() -> Scene {
    Scene::new(vec![
        Entity::Apple(Apple::new()),
        Entity::Book(Book::new(
            String::from("The Lusty Argonian Maid"),
            String::from("Crassius Curio"),
            String::from("[contents here]"),
        )),
    ])
}

#[test]
fn describe_is_idempotent_on_an_unconsumed_apple() {
    let apple = Apple::new();
    let first = apple.describe();
    let second = apple.describe();
    assert_eq!(first, second);
    assert_eq!(first, "It's a tempting red apple.");
}

#[test]
fn consuming_an_apple_succeeds_exactly_once() {
    let mut apple = Apple::new();
    assert_eq!(
        apple.consume(),
        Ok(String::from("It's delicious! All that's left is the core."))
    );
    assert!(apple.consumed);
    assert_eq!(apple.consume(), Err("The core doesn't look appetising."));
    assert!(apple.consumed);
    assert_eq!(apple.describe(), "It's an apple core.");
}

#[test]
fn consuming_a_book_always_fails_with_not_food() {
    let mut scene = default_scene();
    for _ in 0..3 {
        let response = scene.do_instruction(Instruction::Consume(
            Some(EntityIdent::Book),
            String::from("book"),
        ));
        assert_eq!(response, "It's not food. You decide not to eat it.");
    }
}

#[test]
fn vocabulary_failure_comes_before_presence_and_capability() {
    let mut scene = default_scene();
    let response =
        scene.do_instruction(Instruction::Describe(None, String::from("dolphin")));
    assert_eq!(response, "You've never heard of a dolphin.");
    assert!(response.contains("dolphin"));
    assert!(!response.contains("here"));
}

#[test]
fn presence_failure_is_distinct_from_vocabulary_failure() {
    let mut scene = default_scene();
    let instruction = parse_instruction(String::from("look at wrench")).unwrap();
    assert_eq!(
        instruction,
        Instruction::Describe(Some(EntityIdent::Wrench), String::from("wrench"))
    );
    let response = scene.do_instruction(instruction);
    assert_eq!(response, "You look around but you can't find a wrench here.");
}

#[test]
fn describing_a_present_book_returns_its_exact_description() {
    let mut scene = default_scene();
    let response = scene.do_instruction(Instruction::Describe(
        Some(EntityIdent::Book),
        String::from("book"),
    ));
    assert_eq!(
        response,
        "It's a book. The title reads \"The Lusty Argonian Maid\" by Crassius Curio."
    );
}

#[test]
fn reading_a_book_returns_its_contents_verbatim() {
    let mut scene = default_scene();
    let response = scene.do_instruction(Instruction::Read(
        Some(EntityIdent::Book),
        String::from("book"),
    ));
    assert_eq!(response, "The book reads:\n[contents here]");
}

#[test]
fn reading_an_apple_is_refused_with_the_read_suffix() {
    let mut scene = default_scene();
    let response = scene.do_instruction(Instruction::Read(
        Some(EntityIdent::Apple),
        String::from("apple"),
    ));
    assert_eq!(response, "There's nothing to read. You leave it alone.");
}

#[test]
fn biting_a_wrench_hurts() {
    let mut scene = Scene::new(vec![
        Entity::Apple(Apple::new()),
        Entity::Wrench(Wrench::new()),
    ]);
    let response = scene.do_instruction(Instruction::Consume(
        Some(EntityIdent::Wrench),
        String::from("wrench"),
    ));
    assert_eq!(response, "You bite down hard. Ouch! You decide not to eat it.");
    assert_eq!(Wrench::new().describe(), "It's a wrench.");
}

#[test]
fn looking_gives_the_fixed_scene_summary() {
    let mut scene = default_scene();
    let response = scene.do_instruction(Instruction::Look);
    assert_eq!(response, "You look around and see an apple and a book.");
}

#[test]
fn a_full_session_transitions_the_apple_exactly_once() {
    let mut scene = default_scene();
    let lines = ["look", "eat apple", "eat apple", "look at book"];
    let mut responses: Vec<String> = Vec::new();
    for line in lines {
        let instruction = parse_instruction(String::from(line)).unwrap();
        responses.push(scene.do_instruction(instruction));
    }
    assert_eq!(
        responses,
        vec![
            String::from("You look around and see an apple and a book."),
            String::from("It's delicious! All that's left is the core."),
            String::from("The core doesn't look appetising. You decide not to eat it."),
            String::from("It's a book. The title reads \"The Lusty Argonian Maid\" by Crassius Curio."),
        ]
    );
    assert!(matches!(&scene.entities[0], Entity::Apple(a) if a.consumed));
    assert!(matches!(&scene.entities[1], Entity::Book(_)));
    assert_eq!(scene.entities.len(), 2);
}
