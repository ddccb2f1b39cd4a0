use rug::Integer;
use uplc_syntax::builtin::Builtin;
use uplc_syntax::constant::Const;
use uplc_syntax::name::Name;
use uplc_syntax::program::Program;
use uplc_syntax::render::Render;
use uplc_syntax::term::Term;

fn name(id: &str, uniq: u32) -> Name {
    Name { id: id.to_string(), uniq }
}

fn all_builtins() -> Vec<(Builtin, &'static str)> {
    vec![
        (Builtin::AddInteger, "addInteger"),
        (Builtin::SubtractInteger, "subtractInteger"),
        (Builtin::MultiplyInteger, "multiplyInteger"),
        (Builtin::DivideInteger, "divideInteger"),
        (Builtin::QuotientInteger, "quotientInteger"),
        (Builtin::RemainderInteger, "remainderInteger"),
        (Builtin::ModInteger, "modInteger"),
        (Builtin::LessThanInteger, "lessThanInteger"),
        (Builtin::LessThanEqInteger, "lessThanEqualsInteger"),
        (Builtin::GreaterThanInteger, "greaterThanInteger"),
        (Builtin::GreaterThanEqInteger, "greaterThanEqualsInteger"),
        (Builtin::EqInteger, "equalsInteger"),
        (Builtin::Concatenate, "concatenate"),
        (Builtin::TakeByteString, "takeByteString"),
        (Builtin::DropByteString, "dropByteString"),
        (Builtin::SHA2, "sha2_256"),
        (Builtin::SHA3, "sha3_256"),
        (Builtin::VerifySignature, "verifySignature"),
        (Builtin::EqByteString, "equalsByteString"),
        (Builtin::LtByteString, "lessThanByteString"),
        (Builtin::GtByteString, "greaterThanByteString"),
        (Builtin::IfThenElse, "ifThenElse"),
        (Builtin::CharToString, "charToString"),
        (Builtin::Append, "append"),
        (Builtin::Trace, "trace"),
    ]
}

#[test]
fn builtin_spec() {
    assert_eq!("addInteger", Builtin::AddInteger.render());
}

#[test]
fn const_spec() {
    assert_eq!("(con integer 1)", Const::integer(1).render());
    assert_eq!("(con bytestring [])", Const::bytestring(vec![]).render());
    assert_eq!(
        "(con bytestring [0, 1, 2])",
        Const::bytestring(vec![0, 1, 2]).render()
    );
    assert_eq!(
        "(con bytestring [0, 1, 2])",
        Const::bytestring(vec![0, 1, 2]).render()
    );
    assert_eq!("(con string \"hello\")", Const::string("hello").render());
    assert_eq!("(con unit ())", Const::unit().render());
    assert_eq!("(con boolean true)", Const::bool(true).render());
}

#[test]
fn every_builtin_has_its_name() {
    let all = all_builtins();
    assert_eq!(all.len(), 25);
    for (tag, expected) in all {
        assert_eq!(tag.name(), expected);
        assert_eq!(tag.render(), expected);
    }
}

#[test]
fn builtin_names_are_nonempty_and_distinct() {
    let all = all_builtins();
    for (i, (a, _)) in all.iter().enumerate() {
        assert!(!a.name().is_empty());
        for (j, (b, _)) in all.iter().enumerate() {
            assert_eq!(a.name() == b.name(), i == j);
            assert_eq!(a == b, i == j);
        }
    }
}

#[test]
fn builtin_names_are_lower_camel_case() {
    for (tag, _) in all_builtins() {
        let text = tag.name();
        assert!(text.chars().next().unwrap().is_ascii_lowercase());
        if tag == Builtin::SHA2 || tag == Builtin::SHA3 {
            assert!(text
                .chars()
                .all(|c| c.is_ascii_lowercase() || c.is_ascii_digit() || c == '_'));
            assert!(!text.ends_with('_'));
            assert!(!text.contains("__"));
        } else {
            assert!(text.chars().all(|c| c.is_ascii_alphanumeric()));
        }
    }
}

#[test]
fn integer_literals_are_written_in_decimal() {
    assert_eq!(Const::integer(0).render(), "(con integer 0)");
    assert_eq!(Const::integer(-1).render(), "(con integer -1)");
    assert_eq!(Const::integer(-42).render(), "(con integer -42)");
    assert_eq!(Const::integer(1000000).render(), "(con integer 1000000)");
    assert_eq!(
        Const::integer(i64::MIN).render(),
        "(con integer -9223372036854775808)"
    );
    assert_eq!(
        Const::integer(u64::MAX).render(),
        "(con integer 18446744073709551615)"
    );
}

#[test]
fn integer_literals_beyond_machine_words() {
    let big = Integer::from_str_radix("123456789012345678901234567890123456789", 10).unwrap();
    assert_eq!(
        Const::integer(big).render(),
        "(con integer 123456789012345678901234567890123456789)"
    );
    let small = Integer::from_str_radix("-340282366920938463463374607431768211457", 10).unwrap();
    assert_eq!(
        Const::integer(small).render(),
        "(con integer -340282366920938463463374607431768211457)"
    );
    assert_eq!(
        Const::IntConst(Integer::from(7)).render(),
        "(con integer 7)"
    );
}

#[test]
fn bytestring_literals_are_written_as_lists() {
    assert_eq!(Const::bytestring(vec![7u8]).render(), "(con bytestring [7])");
    assert_eq!(
        Const::bytestring(vec![0u8, 9, 10, 99, 100, 255]).render(),
        "(con bytestring [0, 9, 10, 99, 100, 255])"
    );
    assert_eq!(
        Const::bytestring("hi").render(),
        "(con bytestring [104, 105])"
    );
}

#[test]
fn string_literals_are_written_verbatim() {
    assert_eq!(Const::string("").render(), "(con string \"\")");
    assert_eq!(
        Const::string(String::from("two words")).render(),
        "(con string \"two words\")"
    );
    assert_eq!(
        Const::string("a \"quoted\" \\ part").render(),
        "(con string \"a \"quoted\" \\ part\")"
    );
    assert_eq!(
        Const::string("line\nbreak").render(),
        "(con string \"line\nbreak\")"
    );
    assert_eq!(Const::string("λ→∀").render(), "(con string \"λ→∀\")");
}

#[test]
fn char_literals_are_written_between_single_quotes() {
    assert_eq!(Const::char('a').render(), "(con char 'a')");
    assert_eq!(Const::char('\'').render(), "(con char ''')");
    assert_eq!(Const::char('λ').render(), "(con char 'λ')");
    assert_eq!(Const::char(b'z').render(), "(con char 'z')");
}

#[test]
fn unit_and_boolean_literals() {
    assert_eq!(Const::unit().render(), "(con unit ())");
    assert_eq!(Const::bool(true).render(), "(con boolean true)");
    assert_eq!(Const::bool(false).render(), "(con boolean false)");
}

#[test]
fn names_are_written_with_their_number() {
    assert_eq!(name("x", 0).render(), "x_0");
    assert_eq!(name("acc", 17).render(), "acc_17");
    assert_eq!(name("", 5).render(), "_5");
    assert_eq!(name("x_1", 2).render(), "x_1_2");
    assert_eq!(name("n", u32::MAX).render(), "n_4294967295");
}

#[test]
fn leaf_terms() {
    let constant: Term<Name> = Term::Constant(Const::integer(1));
    assert_eq!(constant.render(), "(con integer 1)");
    let builtin: Term<Name> = Term::Builtin(Builtin::AddInteger);
    assert_eq!(builtin.render(), "(builtin addInteger)");
    let hash: Term<Name> = Term::Builtin(Builtin::SHA2);
    assert_eq!(hash.render(), "(builtin sha2_256)");
    let var = Term::Var(name("x", 0));
    assert_eq!(var.render(), "x_0");
    let error: Term<Name> = Term::Error;
    assert_eq!(error.render(), "(error)");
}

#[test]
fn lambda_of_its_own_variable() {
    let term = Term::LamAbs(name("x", 0), Box::new(Term::Var(name("x", 0))));
    assert_eq!(term.render(), "(lam x_0\n x_0\n)");
}

#[test]
fn lambda_of_a_constant() {
    let term = Term::LamAbs(
        name("x", 0),
        Box::new(Term::Constant(Const::integer(1))),
    );
    assert_eq!(term.render(), "(lam x_0\n (con integer 1)\n)");
}

#[test]
fn application_puts_each_subterm_on_its_own_line() {
    let term = Term::Apply(
        Box::new(Term::Var(name("f", 1))),
        Box::new(Term::Var(name("x", 2))),
    );
    assert_eq!(term.render(), "[\nf_1\nx_2\n]");
}

#[test]
fn delay_and_force() {
    let delayed = Term::Delay(Box::new(Term::Var(name("x", 0))));
    assert_eq!(delayed.render(), "(delay x_0)");
    let forced = Term::Force(Box::new(delayed));
    assert_eq!(forced.render(), "(force (delay x_0))");
    let failing: Term<Name> = Term::Force(Box::new(Term::Error));
    assert_eq!(failing.render(), "(force (error))");
}

#[test]
fn nested_terms_add_no_indentation_of_their_own() {
    let inner = Term::LamAbs(
        name("y", 1),
        Box::new(Term::Apply(
            Box::new(Term::Builtin(Builtin::AddInteger)),
            Box::new(Term::Var(name("y", 1))),
        )),
    );
    let outer = Term::LamAbs(name("x", 0), Box::new(inner));
    assert_eq!(
        outer.render(),
        "(lam x_0\n (lam y_1\n [\n(builtin addInteger)\ny_1\n]\n)\n)"
    );
    let applied = Term::Apply(
        Box::new(outer),
        Box::new(Term::Constant(Const::bytestring(vec![1u8, 2]))),
    );
    assert_eq!(
        applied.render(),
        "[\n(lam x_0\n (lam y_1\n [\n(builtin addInteger)\ny_1\n]\n)\n)\n(con bytestring [1, 2])\n]"
    );
}

#[test]
fn terms_over_plain_identifiers() {
    let term: Term<String> = Term::LamAbs(
        "x".to_string(),
        Box::new(Term::Apply(
            Box::new(Term::Var("f".to_string())),
            Box::new(Term::Var("x".to_string())),
        )),
    );
    assert_eq!(term.render(), "(lam x\n [\nf\nx\n]\n)");
}

#[test]
fn program_with_error_body() {
    let program: Program<Name> = Program(1, 0, 0, Term::Error);
    assert_eq!(program.render(), "(program 1.0.0\n(error)\n)\n");
}

#[test]
fn program_versions_are_written_as_they_are() {
    let program: Program<Name> = Program(11, 22, 33, Term::Var(name("x", 0)));
    assert_eq!(program.render(), "(program 11.22.33\nx_0\n)\n");
    let odd: Program<Name> = Program(-1, i32::MAX, i32::MIN, Term::Error);
    assert_eq!(
        odd.render(),
        "(program -1.2147483647.-2147483648\n(error)\n)\n"
    );
}

#[test]
fn program_with_a_function_body() {
    let body = Term::LamAbs(
        name("x", 0),
        Box::new(Term::Force(Box::new(Term::Var(name("x", 0))))),
    );
    let program = Program(2, 1, 0, body);
    assert_eq!(
        program.render(),
        "(program 2.1.0\n(lam x_0\n (force x_0)\n)\n)\n"
    );
}

#[test]
fn rendering_twice_gives_the_same_text() {
    let term = Term::Apply(
        Box::new(Term::LamAbs(
            name("x", 0),
            Box::new(Term::Constant(Const::string("s"))),
        )),
        Box::new(Term::Constant(Const::integer(-5))),
    );
    let first = term.render();
    let second = term.render();
    assert_eq!(first, second);
    assert_eq!(first, "[\n(lam x_0\n (con string \"s\")\n)\n(con integer -5)\n]");
    let program = Program(1, 0, 0, term);
    assert_eq!(program.render(), program.render());
}

#[test]
fn render_into_appends() {
    let mut out = String::from("; ");
    Const::unit().render_into(&mut out);
    assert_eq!(out, "; (con unit ())");
    name("x", 3).render_into(&mut out);
    assert_eq!(out, "; (con unit ())x_3");
    let term: Term<Name> = Term::Delay(Box::new(Term::Error));
    term.render_into(&mut out);
    assert_eq!(out, "; (con unit ())x_3(delay (error))");
    Builtin::Trace.render_into(&mut out);
    assert_eq!(out, "; (con unit ())x_3(delay (error))trace");
}

#[test]
fn a_thousand_nested_applications() {
    let mut term: Term<Name> = Term::Error;
    let mut expected = String::from("(error)");
    for i in 0..1000u32 {
        term = Term::Apply(Box::new(term), Box::new(Term::Var(name("x", i))));
        expected = format!("[\n{}\nx_{}\n]", expected, i);
    }
    assert_eq!(term.render(), expected);
}

#[test]
fn a_thousand_nested_lambdas() {
    let mut term: Term<Name> = Term::Var(name("x", 0));
    let mut expected = String::from("x_0");
    for i in 0..1000u32 {
        term = Term::LamAbs(name("x", i), Box::new(term));
        expected = format!("(lam x_{}\n {}\n)", i, expected);
    }
    assert_eq!(term.render(), expected);
}
