use zerium::control::{ControlId, SceneArgumentSetting};
use zerium::model::{PropertySchema, PropertyType, PropertyValueType, ScalarPropertyType, ScalarSettings};
use zerium::scene_inputs::{scene_inputs, SceneArgumentEntry, SceneInput, SceneInputValue};

fn settings() -> ScalarSettings {
    ScalarSettings {
        visible: true,
        label: None,
        scalar_label: None,
        multiline: false,
        font_family_editor: false,
        enum_options: None,
        editable: true,
        animatable: true,
        scene_bindable: true,
    }
}

fn entry(id: &str, label: &str, ty: ScalarPropertyType) -> SceneArgumentEntry {
    SceneArgumentEntry {
        schema: PropertySchema::new(id, label, PropertyType::Value(PropertyValueType::Scalar(ty)), true, settings(), vec![]),
        expression: None,
        numeric_settings: None,
        text_default: None,
    }
}

fn describe(input: &SceneInput) -> String {
    let id = match &input.id {
        ControlId::SceneName(s) => format!("name/{s}"),
        ControlId::SceneArgumentName { scene_id, argument_id } => format!("arg-name/{scene_id}/{argument_id}"),
        ControlId::SceneArgumentExpression { argument_id, .. } => format!("expr/{argument_id}"),
        ControlId::SceneArgumentDefault { argument_id, .. } => format!("default/{argument_id}"),
        ControlId::SceneArgumentColor { argument_id, .. } => format!("color/{argument_id}"),
        ControlId::SceneArgumentSetting { argument_id, setting, .. } => format!(
            "{}/{argument_id}",
            match setting {
                SceneArgumentSetting::Default => "setting-default",
                SceneArgumentSetting::Min => "min",
                SceneArgumentSetting::Max => "max",
            }
        ),
        _ => "other".to_string(),
    };
    match &input.value {
        SceneInputValue::Text(t) => format!("{id}={t}"),
        SceneInputValue::Color => format!("{id}=color"),
    }
}

#[test]
fn scene_name_comes_first() {
    let inputs = scene_inputs(9, "Intro", &vec![]);
    assert_eq!(inputs.iter().map(describe).collect::<Vec<_>>(), vec!["name/9=Intro"]);
}

#[test]
fn each_argument_gets_its_inputs() {
    let mut speed = entry("speed", "Speed", ScalarPropertyType::F32);
    speed.numeric_settings = Some(("1".to_string(), "0".to_string(), "10".to_string()));
    let mut title = entry("title", "", ScalarPropertyType::String);
    title.text_default = Some("Hello".to_string());
    let mut derived = entry("size", "Size", ScalarPropertyType::F32);
    derived.expression = Some("speed * 2".to_string());
    let tint = entry("tint", "Tint", ScalarPropertyType::Color);
    let flag = entry("flag", "Flag", ScalarPropertyType::Bool);
    let inputs = scene_inputs(2, "Main", &vec![speed, title, derived, tint, flag]);
    assert_eq!(
        inputs.iter().map(describe).collect::<Vec<_>>(),
        vec![
            "name/2=Main",
            "arg-name/2/speed=Speed",
            "setting-default/speed=1",
            "min/speed=0",
            "max/speed=10",
            "arg-name/2/title=title",
            "default/title=Hello",
            "arg-name/2/size=Size",
            "expr/size=speed * 2",
            "arg-name/2/tint=Tint",
            "color/tint=color",
            "arg-name/2/flag=Flag",
        ]
    );
}

#[test]
fn numbers_without_settings_and_strings_without_defaults() {
    let number = entry("n", "N", ScalarPropertyType::I32);
    let text = entry("t", "T", ScalarPropertyType::String);
    let inputs = scene_inputs(1, "S", &vec![number, text]);
    assert_eq!(
        inputs.iter().map(describe).collect::<Vec<_>>(),
        vec!["name/1=S", "arg-name/1/n=N", "arg-name/1/t=T", "default/t="]
    );
}
