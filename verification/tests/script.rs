use onedim::color::Color;
use onedim::engine::body::Body;
use onedim::engine::system::System;
use onedim::scalar::Scalar;
use onedim::script::{Command, CommandError, ScriptError};

fn empty_system() -> System {
    System::new(
        vec![],
        Scalar::zero(),
        Scalar::zero(),
        Scalar::zero(),
        Scalar::zero(),
        400,
        false,
        Scalar::from_int(1000),
    )
}

#[test]
fn new_body_then_gravity() {
    let mut system = empty_system();
    assert_eq!(system.run_command("new 0 5 1 10 255 0 0"), Ok(()));
    assert_eq!(system.run_command("set gravity 9.8"), Ok(()));
    assert_eq!(system.bodies.len(), 1);
    let body = system.bodies[0];
    assert_eq!(body.position, Scalar::from_int(0));
    assert_eq!(body.velocity, Scalar::from_int(5));
    assert_eq!(body.mass, Scalar::from_int(1));
    assert_eq!(body.force, Scalar::zero());
    assert_eq!(body.size, 10);
    assert_eq!(body.color, Color { r: 255, g: 0, b: 0, a: 255 });
    assert_eq!(system.gravity, Scalar { raw: 9_800_000_000 });
}

#[test]
fn the_same_two_lines_as_a_script() {
    let mut system = empty_system();
    assert_eq!(system.run_script("new 0 5 1 10 255 0 0\nset gravity 9.8\n"), Ok(()));
    assert_eq!(system.bodies.len(), 1);
    assert_eq!(system.gravity, Scalar { raw: 9_800_000_000 });
}

#[test]
fn every_parameter_can_be_set() {
    let mut system = empty_system();
    let script = "set angle 0.5\r\nset gravity 9.81\r\nset kfriction .25\r\nset sfriction 1.\r\n\
                  set elastic_collision true\r\nset size 250";
    assert_eq!(system.run_script(script), Ok(()));
    assert_eq!(system.angle, Scalar { raw: 500_000_000 });
    assert_eq!(system.gravity, Scalar { raw: 9_810_000_000 });
    assert_eq!(system.kfriction_coefficient, Scalar { raw: 250_000_000 });
    assert_eq!(system.sfriction_coefficient, Scalar { raw: 1_000_000_000 });
    assert!(system.elastic_collisions);
    assert_eq!(system.domain_half_size, Scalar::from_int(250));
    assert_eq!(system.surface_y, 400);
    assert!(system.bodies.is_empty());
}

#[test]
fn a_blank_line_does_nothing() {
    let mut system = empty_system();
    assert_eq!(system.run_command(""), Ok(()));
    assert_eq!(system.run_command("  \t "), Ok(()));
    assert_eq!(Command::parse(" \u{3000} "), Ok(Command::Nothing));
    assert!(system.bodies.is_empty());
}

#[test]
fn tokens_after_the_last_argument_are_not_read() {
    assert_eq!(
        Command::parse("set gravity 2 and more"),
        Ok(Command::SetGravity(Scalar::from_int(2)))
    );
}

#[test]
fn an_unknown_leading_token_is_an_unexpected_command() {
    let mut system = empty_system();
    assert_eq!(system.run_command("delete 1"), Err(CommandError::UnexpectedCommand));
    assert_eq!(system.run_command("Set gravity 1"), Err(CommandError::UnexpectedCommand));
    assert_eq!(system.gravity, Scalar::zero());
}

#[test]
fn set_needs_a_known_parameter_and_a_value() {
    assert_eq!(Command::parse("set"), Err(CommandError::MissingArgument));
    assert_eq!(Command::parse("set gravity"), Err(CommandError::MissingArgument));
    assert_eq!(Command::parse("set colour 3"), Err(CommandError::UnknownParameter));
    assert_eq!(Command::parse("set colour"), Err(CommandError::UnknownParameter));
    assert_eq!(Command::parse("set gravity nine"), Err(CommandError::InvalidValue));
    assert_eq!(Command::parse("set elastic_collision 1"), Err(CommandError::InvalidValue));
    assert_eq!(Command::parse("set elastic_collision True"), Err(CommandError::InvalidValue));
    assert_eq!(
        Command::parse("set elastic_collision false"),
        Ok(Command::SetElasticCollisions(false))
    );
}

#[test]
fn a_failed_set_leaves_the_field_as_it_was() {
    let mut system = empty_system();
    assert_eq!(system.run_command("set gravity 3"), Ok(()));
    assert_eq!(system.run_command("set gravity 4x"), Err(CommandError::InvalidValue));
    assert_eq!(system.gravity, Scalar::from_int(3));
}

#[test]
fn new_reads_its_arguments_in_order() {
    assert_eq!(Command::parse("new"), Err(CommandError::MissingArgument));
    assert_eq!(Command::parse("new 1 2 3 4 5 6"), Err(CommandError::MissingArgument));
    assert_eq!(Command::parse("new x"), Err(CommandError::InvalidValue));
    assert_eq!(Command::parse("new 1 2 3 -4 5 6 7"), Err(CommandError::InvalidValue));
    assert_eq!(Command::parse("new 1 2 3 4.5 5 6 7"), Err(CommandError::InvalidValue));
    assert_eq!(Command::parse("new 1 2 3 4 256 6 7"), Err(CommandError::InvalidValue));
    assert_eq!(Command::parse("new 1 2 3 4294967296 5 6 7"), Err(CommandError::InvalidValue));
    assert_eq!(Command::parse("new 1 2 3 4 5 6 seven"), Err(CommandError::InvalidValue));
    assert_eq!(
        Command::parse("new -1.5 +2 3 4294967295 0 255 +7"),
        Ok(Command::New(Body::new(
            Scalar { raw: -1_500_000_000 },
            Scalar::from_int(2),
            Scalar::from_int(3),
            4294967295,
            Color::rgb(0, 255, 7),
        )))
    );
}

#[test]
fn a_failed_new_appends_nothing() {
    let mut system = empty_system();
    assert_eq!(system.run_command("new 0 5 1 10 255 0"), Err(CommandError::MissingArgument));
    assert_eq!(system.run_command("new 0 5 1 10 255 0 red"), Err(CommandError::InvalidValue));
    assert!(system.bodies.is_empty());
}

#[test]
fn a_script_stops_at_its_first_failing_line() {
    let mut system = empty_system();
    let script = "set gravity 1\n\nnew 0 0 1 10 1 2 3\nset nothing 5\nset gravity 2\nbogus\n";
    assert_eq!(
        system.run_script(script),
        Err(ScriptError { line: 4, error: CommandError::UnknownParameter })
    );
    assert_eq!(system.gravity, Scalar::from_int(1));
    assert_eq!(system.bodies.len(), 1);
    assert_eq!(system.bodies[0].color, Color::rgb(1, 2, 3));
}

#[test]
fn an_empty_script_succeeds() {
    let mut system = empty_system();
    assert_eq!(system.run_script(""), Ok(()));
    assert_eq!(system.run_script("\n\n"), Ok(()));
}

#[test]
fn each_error_has_its_message() {
    assert_eq!(CommandError::UnexpectedCommand.message(), "unexpected command");
    assert_eq!(CommandError::MissingArgument.message(), "missing argument");
    assert_eq!(CommandError::UnknownParameter.message(), "unknown parameter");
    assert_eq!(CommandError::InvalidValue.message(), "invalid value");
}
