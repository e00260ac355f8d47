use full_error::FullError;
use full_error::SourceError;
use full_error::TAB_ENV;
use full_error::render_parts;

#[derive(Debug, PartialEq)]
enum ErrA {
    ErrVarA(u8),
    ErrVarB,
}

impl SourceError for ErrA {
    fn message(&self) -> String {
        match self {
            ErrA::ErrVarA(n) => format!("error variant a: {0}", n),
            ErrA::ErrVarB => String::from("error variant b"),
        }
    }

    fn cause_messages(&self) -> Vec<String> {
        Vec::new()
    }
}

#[derive(Debug, PartialEq)]
enum ErrB {
    ErrA(ErrA),
    ErrVarA,
}

impl SourceError for ErrB {
    fn message(&self) -> String {
        match self {
            ErrB::ErrA(_) => String::from("ErrA error"),
            ErrB::ErrVarA => String::from("error variant a"),
        }
    }

    fn cause_messages(&self) -> Vec<String> {
        match self {
            ErrB::ErrA(a) => {
                let mut v = vec![a.message()];
                v.extend(a.cause_messages());
                v
            }
            ErrB::ErrVarA => Vec::new(),
        }
    }
}

impl From<ErrA> for ErrB {
    fn from(value: ErrA) -> Self {
        ErrB::ErrA(value)
    }
}

#[test]
fn it_works() {
    let error: FullError<ErrB> = ErrB::from(ErrA::ErrVarA(5)).into();
    println!("{}", error.render(None));
}

#[test]
fn renders_concrete_scenario_with_default_separator() {
    let error: FullError<ErrB> = ErrB::from(ErrA::ErrVarA(5)).into();
    assert_eq!(error.render(None), "ErrA error\nfrom => error variant a: 5\n");
}

#[test]
fn renders_message_and_one_line_break_without_cause() {
    let error = FullError::new(ErrA::ErrVarB);
    assert_eq!(error.render(None), "error variant b\n");
}

#[test]
fn renders_one_line_per_cause_nearest_first() {
    let causes = vec![String::from("middle"), String::from("root")];
    let out = render_parts("top", &causes, None);
    assert_eq!(out, "top\nfrom => middle\nfrom => root\n");
    assert_eq!(out.lines().count(), 3);
}

#[test]
fn uses_configured_separator_verbatim() {
    let error: FullError<ErrB> = ErrB::from(ErrA::ErrVarA(5)).into();
    assert_eq!(
        error.render(Some("caused by:")),
        "ErrA error\ncaused by: error variant a: 5\n"
    );
}

#[test]
fn resolves_separator_fresh_on_each_render() {
    let error: FullError<ErrB> = ErrB::from(ErrA::ErrVarB).into();
    let first = error.render(Some("|>"));
    let second = error.render(Some("=>"));
    assert_eq!(first, "ErrA error\n|> error variant b\n");
    assert_eq!(second, "ErrA error\n=> error variant b\n");
    assert_ne!(first, second);
}

#[test]
fn defaults_to_fixed_separator_when_unset() {
    let causes = vec![String::from("root")];
    let with_none = render_parts("top", &causes, None);
    assert_eq!(with_none, "top\nfrom => root\n");
    assert!(with_none.contains("from =>"));
}

#[test]
fn configuration_key_name_is_fixed() {
    assert_eq!(TAB_ENV, "FULLERROR_SOURCE_HEADER");
}

#[test]
fn reads_inner_value_transparently() {
    let wrapper = FullError::new(ErrA::ErrVarA(7));
    assert_eq!(*wrapper.as_inner(), ErrA::ErrVarA(7));
    assert_eq!(wrapper.into_inner(), ErrA::ErrVarA(7));
}

#[test]
fn mutates_inner_value_in_place() {
    let mut wrapper = FullError::new(ErrA::ErrVarA(1));
    *wrapper.as_inner_mut() = ErrA::ErrVarB;
    assert_eq!(*wrapper.as_inner(), ErrA::ErrVarB);
    assert_eq!(wrapper.render(None), "error variant b\n");
}

#[test]
fn implicit_construction_preserves_inner_value() {
    let wrapper: FullError<ErrA> = ErrA::ErrVarA(9).into();
    assert_eq!(*wrapper.as_inner(), ErrA::ErrVarA(9));
}

fn propagates(fail: bool) -> Result<u8, FullError<ErrA>> {
    let checked: Result<u8, ErrA> = if fail { Err(ErrA::ErrVarB) } else { Ok(3) };
    let value = checked?;
    Ok(value)
}

#[test]
fn question_mark_wraps_propagated_error() {
    match propagates(true) {
        Err(wrapper) => assert_eq!(*wrapper.as_inner(), ErrA::ErrVarB),
        Ok(_) => panic!("expected the propagated error"),
    }
    match propagates(false) {
        Ok(value) => assert_eq!(value, 3),
        Err(_) => panic!("expected success"),
    }
}

#[test]
fn wrapper_conforms_to_error_capability_at_outermost_layer() {
    let error: FullError<ErrB> = ErrB::from(ErrA::ErrVarA(5)).into();
    let outer = FullError::new(error);
    assert_eq!(outer.as_inner().message(), "ErrA error\nfrom => error variant a: 5\n");
    assert_eq!(outer.as_inner().cause_messages(), Vec::<String>::new());
}

#[test]
fn renders_empty_message_and_empty_separator() {
    let causes = vec![String::from("")];
    assert_eq!(render_parts("", &causes, Some("")), "\n \n");
    assert_eq!(render_parts("", &Vec::new(), None), "\n");
}
