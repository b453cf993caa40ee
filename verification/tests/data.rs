use flutter_rust_bridge::data::{
    yield_now, EnumAlias, FrbOpaqueReturn, FrbOpaqueSyncReturn, HideData, MyEnum, MyStruct,
    NonSendHideData, StructAlias, UserIdAlias, YieldStep,
};

const HIDDEN: &str = "Some(PrivateData { content: \"content nested\", primitive: 424242, array: [451, 451, 451, 451, 451, 451, 451, 451, 451, 451], lifetime: \"static str\" })";

#[test]
fn hidden_data_is_shown() {
    assert_eq!(HideData::new().hide_data(), format!("content - {}", HIDDEN));
    assert_eq!(NonSendHideData::new().hide_data(), format!("content - {}", HIDDEN));
}

#[test]
fn only_the_content_changes() {
    let mut data = HideData::new();
    data.change_data();
    assert_eq!(data.hide_data(), format!("MUT SELF - {}", HIDDEN));
    data.change_data();
    assert_eq!(data.hide_data(), format!("MUT SELF - {}", HIDDEN));
    let mut data = NonSendHideData::new();
    data.change_data();
    assert_eq!(data.hide_data(), format!("MUT SELF - {}", HIDDEN));
}

#[test]
fn hidden_data_is_shown_as_debug_does() {
    let shown = format!("{:?}", HideData::new());
    assert_eq!(shown, format!("HideData {{ content: \"content\", box_content: {} }}", HIDDEN));
    let shown = format!("{:?}", NonSendHideData::new());
    assert_eq!(
        shown,
        format!("NonSendHideData {{ content: \"content\", box_content: {} }}", HIDDEN)
    );
}

#[test]
fn a_task_gives_way_once() {
    let mut task = yield_now();
    assert!(matches!(task.poll(), YieldStep::WakeAndWait));
    assert!(matches!(task.poll(), YieldStep::Ready));
    assert!(matches!(task.poll(), YieldStep::Ready));
}

#[test]
fn aliases_name_the_same_types() {
    let value: StructAlias = MyStruct { content: true };
    assert!(value.content);
    let truth: EnumAlias = MyEnum::True;
    assert!(matches!(truth, MyEnum::True));
    let id: UserIdAlias = 7u64;
    assert_eq!(id, 7);
    let _opaque = (FrbOpaqueReturn, FrbOpaqueSyncReturn);
}
