use adventure::{parse_instruction, EntityIdent, Instruction};

#[test]
fn lib_it_parses_bad_input() {
    assert_eq!(
        parse_instruction(String::from("")),
        Err("I don't understand")
    );
    assert_eq!(
        parse_instruction(String::from("dance")),
        Err("I don't understand")
    );
}

#[test]
fn lib_it_parses_look() {
    let instruction = parse_instruction(String::from("look")).unwrap();
    assert_eq!(instruction, Instruction::Look);
}

#[test]
fn lib_it_parses_look_at() {
    let instruction = parse_instruction(String::from("look at"));
    assert_eq!(instruction, Err("I don't understand"));

    let instruction = parse_instruction(String::from("look at book")).unwrap();
    assert_eq!(
        instruction,
        Instruction::Describe(EntityIdent::from_str("book"), String::from("book"))
    );

    let instruction = parse_instruction(String::from("look at dolphin")).unwrap();
    assert_eq!(instruction, Instruction::Describe(None, String::from("dolphin")));
}

#[test]
fn lib_it_parses_eat() {
    let instruction = parse_instruction(String::from("eat"));
    assert_eq!(instruction, Err("I don't understand"));

    let instruction = parse_instruction(String::from("eat book")).unwrap();
    assert_eq!(
        instruction,
        Instruction::Consume(EntityIdent::from_str("book"), String::from("book"))
    );

    let instruction = parse_instruction(String::from("eat dolphin")).unwrap();
    assert_eq!(instruction, Instruction::Consume(None, String::from("dolphin")));
}

#[test]
fn lib_it_parses_read() {
    let instruction = parse_instruction(String::from("read"));
    assert_eq!(instruction, Err("I don't understand"));

    let instruction = parse_instruction(String::from("read book")).unwrap();
    assert_eq!(
        instruction,
        Instruction::Read(EntityIdent::from_str("book"), String::from("book"))
    );

    let instruction = parse_instruction(String::from("read dolphin")).unwrap();
    assert_eq!(instruction, Instruction::Read(None, String::from("dolphin")));
}

#[test]
fn parser_it_parses_bad_input() {
    assert_eq!(
        parse_instruction(String::from("")),
        Err("I don't understand")
    );
    assert_eq!(
        parse_instruction(String::from("dance")),
        Err("I don't understand")
    );
}

#[test]
fn it_parses_exit() {
    let instruction = parse_instruction(String::from("exit")).unwrap();
    assert_eq!(instruction, Instruction::Exit);
}

#[test]
fn parser_it_parses_look() {
    let instruction = parse_instruction(String::from("look")).unwrap();
    assert_eq!(instruction, Instruction::Look);
}

#[test]
fn parser_it_parses_look_at() {
    let instruction = parse_instruction(String::from("look at"));
    assert_eq!(instruction, Err("I don't understand"));

    let instruction = parse_instruction(String::from("look at book")).unwrap();
    assert_eq!(
        instruction,
        Instruction::Describe(Some(EntityIdent::Book), String::from("book"))
    );

    let instruction = parse_instruction(String::from("look at dolphin")).unwrap();
    assert_eq!(instruction, Instruction::Describe(None, String::from("dolphin")));

    let instruction = parse_instruction(String::from("look at the book")).unwrap();
    assert_eq!(
        instruction,
        Instruction::Describe(Some(EntityIdent::Book), String::from("book"))
    );

    let instruction = parse_instruction(String::from("look at the dolphin")).unwrap();
    assert_eq!(instruction, Instruction::Describe(None, String::from("dolphin")));
}

#[test]
fn parser_it_parses_eat() {
    let instruction = parse_instruction(String::from("eat"));
    assert_eq!(instruction, Err("I don't understand"));

    let instruction = parse_instruction(String::from("eat book")).unwrap();
    assert_eq!(
        instruction,
        Instruction::Consume(Some(EntityIdent::Book), String::from("book"))
    );

    let instruction = parse_instruction(String::from("eat dolphin")).unwrap();
    assert_eq!(instruction, Instruction::Consume(None, String::from("dolphin")));
}

#[test]
fn parser_it_parses_read() {
    let instruction = parse_instruction(String::from("read"));
    assert_eq!(instruction, Err("I don't understand"));

    let instruction = parse_instruction(String::from("read book")).unwrap();
    assert_eq!(
        instruction,
        Instruction::Read(Some(EntityIdent::Book), String::from("book"))
    );

    let instruction = parse_instruction(String::from("read dolphin")).unwrap();
    assert_eq!(instruction, Instruction::Read(None, String::from("dolphin")));

    let instruction = parse_instruction(String::from("read the book")).unwrap();
    assert_eq!(
        instruction,
        Instruction::Read(Some(EntityIdent::Book), String::from("book"))
    );

    let instruction = parse_instruction(String::from("read the dolphin")).unwrap();
    assert_eq!(instruction, Instruction::Read(None, String::from("dolphin")));
}

#[test]
fn it_ignores_surrounding_whitespace() {
    let instruction = parse_instruction(String::from("  look \n")).unwrap();
    assert_eq!(instruction, Instruction::Look);

    let instruction = parse_instruction(String::from("eat the apple\n")).unwrap();
    assert_eq!(
        instruction,
        Instruction::Consume(Some(EntityIdent::Apple), String::from("apple"))
    );
}

#[test]
fn it_rejects_blank_and_unknown_verbs() {
    assert_eq!(parse_instruction(String::from("   ")), Err("I don't understand"));
    assert_eq!(parse_instruction(String::from("\n")), Err("I don't understand"));
    assert_eq!(parse_instruction(String::from("sing apple")), Err("I don't understand"));
    assert_eq!(parse_instruction(String::from("exit now")), Err("I don't understand"));
    // A lone "the" after "look at" is read as the noun itself.
    assert_eq!(
        parse_instruction(String::from("look at the")),
        Ok(Instruction::Describe(None, String::from("the")))
    );
    assert_eq!(
        parse_instruction(String::from("eat the apple quickly")),
        Err("I don't understand")
    );
}

#[test]
fn it_resolves_vocabulary_without_the_scene() {
    assert_eq!(EntityIdent::from_str("apple"), Some(EntityIdent::Apple));
    assert_eq!(EntityIdent::from_str("book"), Some(EntityIdent::Book));
    assert_eq!(EntityIdent::from_str("wrench"), Some(EntityIdent::Wrench));
    assert_eq!(EntityIdent::from_str("dolphin"), None);
    assert_eq!(EntityIdent::from_str("Apple"), None);
    assert_eq!(EntityIdent::from_str(""), None);
}
