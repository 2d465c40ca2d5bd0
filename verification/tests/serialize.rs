use win_toast::notification::{
    ActionPlacement, ActionsElem, ActivationType, Action, BindingElem, BindingInnerElement,
    Duration, Scenario, SoundSrc, Toast, ValidationError,
};
use win_toast::xml::{u32_to_string, XmlElem};

fn simple_toast() -> Toast {
    Toast {
        app_id: Toast::POWERSHELL_APP_ID.to_string(),
        binding_elems: vec![BindingElem {
            icon: None,
            hero: None,
            title: ("Hello".to_string(), None),
            elems: vec![BindingInnerElement::Text("World".to_string())],
        }],
        duration: Duration::Short,
        scenario: Scenario::Default,
        audio: None,
        actions: vec![],
        use_btn_style: false,
        display_timestamp: None,
    }
}

#[test]
fn round_trip_text() {
    let t = simple_toast();
    let xml = t.to_xml_string().unwrap();
    assert_eq!(
        xml,
        "<toast duration=\"short\"><visual><binding template=\"ToastGeneric\">\
         <text>Hello</text><text>World</text></binding></visual></toast>"
    );
}

#[test]
fn to_xml_string_propagates_validation_errors() {
    let mut t = simple_toast();
    t.binding_elems[0].icon = Some(win_toast::notification::Image {
        src: String::new(),
        alt: String::new(),
        hint_crop: win_toast::notification::HintCrop::Default,
        hint_align: win_toast::notification::ImageAlign::Default,
    });
    assert_eq!(t.to_xml_string(), Err(ValidationError::EmptyImageSrc));
}

#[test]
fn text_and_attribute_values_are_escaped() {
    let mut t = simple_toast();
    t.binding_elems[0].title = ("A&B<C>\"D'".to_string(), None);
    t.binding_elems[0].elems = vec![];
    t.display_timestamp = Some("\"now\" & <later>".to_string());
    let xml = t.to_xml_string().unwrap();
    assert_eq!(
        xml,
        "<toast displayTimestamp=\"&quot;now&quot; &amp; &lt;later&gt;\" duration=\"short\">\
         <visual><binding template=\"ToastGeneric\">\
         <text>A&amp;B&lt;C&gt;&quot;D'</text></binding></visual></toast>"
    );
}

#[test]
fn self_closing_and_nested_elements() {
    let mut audio_toast = simple_toast();
    audio_toast.duration = Duration::Default;
    audio_toast.audio = Some((true, false, SoundSrc::Alarm));
    audio_toast.actions = vec![ActionsElem::Action_(Action {
        content: "ok".to_string(),
        arguments: "a=1".to_string(),
        activation_type: ActivationType::Background,
        placement: ActionPlacement::Default,
        image_uri: None,
        hint_input_id: None,
        hint_button_style: None,
        hint_tool_tip: None,
    })];
    let xml = audio_toast.to_xml_string().unwrap();
    assert_eq!(
        xml,
        "<toast><visual><binding template=\"ToastGeneric\">\
         <text>Hello</text><text>World</text></binding></visual>\
         <audio loop=\"true\" silent=\"false\" src=\"ms-winsoundevent:Notification.Looping.Alarm\"/>\
         <actions><action content=\"ok\" arguments=\"a=1\" activationType=\"background\"/></actions>\
         </toast>"
    );
}

#[test]
fn empty_text_element_is_self_closing() {
    let mut e = XmlElem::new_elem("text");
    e.set_text("");
    assert_eq!(e.to_xml(), "<text/>");
}

#[test]
fn decimal_rendering_of_counters() {
    assert_eq!(u32_to_string(0), "0");
    assert_eq!(u32_to_string(7), "7");
    assert_eq!(u32_to_string(10), "10");
    assert_eq!(u32_to_string(305), "305");
    assert_eq!(u32_to_string(4294967295), "4294967295");
}
