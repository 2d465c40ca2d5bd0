use win_toast::notification::{
    Action, ActionPlacement, ActionsElem, ActivationType, BindingElem, BindingInnerElement,
    Duration, HintCrop, Image, ImageAlign, InnerText, Input, InputType, Scenario, SoundSrc,
    SubgroupElement, TextAlign, TextStyle, Toast, ValidationError,
};
use win_toast::notification::{add_actions, add_audio, add_group, add_image_elem};
use win_toast::xml::XmlElem;

fn attr<'a>(e: &'a XmlElem, name: &str) -> Option<&'a str> {
    for (n, v) in e.attrs.iter() {
        if n == name {
            return Some(v.as_str());
        }
    }
    None
}

fn count_named(e: &XmlElem, name: &str) -> usize {
    e.children.iter().filter(|c| c.name == name).count()
}

fn plain_image(src: &str) -> Image {
    Image {
        src: src.to_string(),
        alt: String::new(),
        hint_crop: HintCrop::Default,
        hint_align: ImageAlign::Default,
    }
}

fn plain_action(content: &str) -> Action {
    Action {
        content: content.to_string(),
        arguments: "args".to_string(),
        activation_type: ActivationType::Foreground,
        placement: ActionPlacement::Default,
        image_uri: None,
        hint_input_id: None,
        hint_button_style: None,
        hint_tool_tip: None,
    }
}

fn plain_text_input(id: &str) -> Input {
    Input {
        id: id.to_string(),
        type_: InputType::Text(None),
        place_holder_content: None,
        title: None,
    }
}

fn simple_toast(elems: Vec<BindingInnerElement>) -> Toast {
    Toast {
        app_id: Toast::POWERSHELL_APP_ID.to_string(),
        binding_elems: vec![BindingElem {
            icon: None,
            hero: None,
            title: ("Hello".to_string(), None),
            elems,
        }],
        duration: Duration::Short,
        scenario: Scenario::Default,
        audio: None,
        actions: vec![],
        use_btn_style: false,
        display_timestamp: None,
    }
}

#[test]
fn image_with_source_builds() {
    let mut parent = XmlElem::new_elem("subgroup");
    let r = add_image_elem(&plain_image("ms-appx:///a.png"), &mut parent);
    assert!(r.is_ok());
    assert_eq!(parent.children.len(), 1);
    assert_eq!(parent.children[0].name, "image");
    assert_eq!(attr(&parent.children[0], "src"), Some("ms-appx:///a.png"));
}

#[test]
fn image_with_empty_source_fails() {
    let mut parent = XmlElem::new_elem("subgroup");
    let r = add_image_elem(&plain_image(""), &mut parent);
    assert_eq!(r, Err(ValidationError::EmptyImageSrc));
    assert_eq!(parent.children.len(), 0);
}

#[test]
fn image_attrs_follow_the_rules() {
    let mut parent = XmlElem::new_elem("subgroup");
    let img = Image {
        src: "file:///pic.jpeg".to_string(),
        alt: "logo".to_string(),
        hint_crop: HintCrop::Circle,
        hint_align: ImageAlign::Center,
    };
    add_image_elem(&img, &mut parent).unwrap();
    let e = &parent.children[0];
    assert_eq!(attr(e, "src"), Some("file:///pic.jpeg"));
    assert_eq!(attr(e, "placement"), None);
    assert_eq!(attr(e, "alt"), Some("logo"));
    assert_eq!(attr(e, "hint-crop"), Some("circle"));
    assert_eq!(attr(e, "hint-align"), Some("center"));
}

#[test]
fn toast_with_bad_hero_reports_the_error() {
    let mut t = simple_toast(vec![]);
    t.binding_elems[0].hero = Some(plain_image(""));
    assert_eq!(t.create_notification(), Err(ValidationError::EmptyImageSrc));
}

#[test]
fn round_trip_simple_description() {
    let t = simple_toast(vec![BindingInnerElement::Text("World".to_string())]);
    let doc = t.create_notification().unwrap();
    assert_eq!(doc.name, "toast");
    assert_eq!(doc.attrs.len(), 1);
    assert_eq!(attr(&doc, "duration"), Some("short"));
    assert_eq!(attr(&doc, "scenario"), None);
    assert_eq!(attr(&doc, "useButtonStyle"), None);
    assert_eq!(attr(&doc, "displayTimestamp"), None);
    assert_eq!(doc.children.len(), 1);
    let visual = &doc.children[0];
    assert_eq!(visual.name, "visual");
    assert_eq!(visual.children.len(), 1);
    let binding = &visual.children[0];
    assert_eq!(binding.name, "binding");
    assert_eq!(attr(binding, "template"), Some("ToastGeneric"));
    assert_eq!(binding.children.len(), 2);
    assert_eq!(binding.children[0].name, "text");
    assert_eq!(binding.children[0].text, "Hello");
    assert_eq!(binding.children[1].name, "text");
    assert_eq!(binding.children[1].text, "World");
    assert_eq!(count_named(&doc, "audio"), 0);
    assert_eq!(count_named(&doc, "actions"), 0);
}

#[test]
fn six_actions_two_inputs_render_five_and_two() {
    let mut items: Vec<ActionsElem> = Vec::new();
    for k in 0..6 {
        items.push(ActionsElem::Action_(plain_action(&format!("a{}", k))));
    }
    items.push(ActionsElem::Input_(plain_text_input("i0")));
    items.push(ActionsElem::Input_(plain_text_input("i1")));
    let mut parent = XmlElem::new_elem("toast");
    add_actions(&items, &mut parent);
    let actions = &parent.children[0];
    assert_eq!(actions.name, "actions");
    assert_eq!(count_named(actions, "action"), 5);
    assert_eq!(count_named(actions, "input"), 2);
    let contents: Vec<&str> = actions
        .children
        .iter()
        .filter(|c| c.name == "action")
        .map(|c| attr(c, "content").unwrap())
        .collect();
    assert_eq!(contents, vec!["a0", "a1", "a2", "a3", "a4"]);
    let ids: Vec<&str> = actions
        .children
        .iter()
        .filter(|c| c.name == "input")
        .map(|c| attr(c, "id").unwrap())
        .collect();
    assert_eq!(ids, vec!["i0", "i1"]);
}

#[test]
fn interleaved_overflow_keeps_each_cap_independent() {
    let mut items: Vec<ActionsElem> = Vec::new();
    for k in 0..7 {
        items.push(ActionsElem::Input_(plain_text_input(&format!("i{}", k))));
        items.push(ActionsElem::Action_(plain_action(&format!("a{}", k))));
    }
    let mut parent = XmlElem::new_elem("toast");
    add_actions(&items, &mut parent);
    let actions = &parent.children[0];
    assert_eq!(count_named(actions, "action"), 5);
    assert_eq!(count_named(actions, "input"), 5);
    let names: Vec<&str> = actions.children.iter().map(|c| c.name.as_str()).collect();
    assert_eq!(
        names,
        vec![
            "input", "action", "input", "action", "input", "action", "input", "action", "input",
            "action"
        ]
    );
}

#[test]
fn empty_actions_list_appends_nothing() {
    let mut parent = XmlElem::new_elem("toast");
    add_actions(&vec![], &mut parent);
    assert_eq!(parent.children.len(), 0);
}

#[test]
fn selection_list_keeps_only_the_first_five() {
    let pairs: Vec<(String, String)> = (0..7)
        .map(|k| (format!("id{}", k), format!("t{}", k)))
        .collect();
    let input = Input {
        id: "pick".to_string(),
        type_: InputType::Selection(Some("id1".to_string()), pairs),
        place_holder_content: None,
        title: Some("label".to_string()),
    };
    let mut parent = XmlElem::new_elem("toast");
    add_actions(&vec![ActionsElem::Input_(input)], &mut parent);
    let input_e = &parent.children[0].children[0];
    assert_eq!(input_e.name, "input");
    assert_eq!(attr(input_e, "type"), Some("selection"));
    assert_eq!(attr(input_e, "defaultSelectionBoxItemId"), Some("id1"));
    assert_eq!(attr(input_e, "title"), Some("label"));
    assert_eq!(input_e.children.len(), 5);
    for k in 0..5 {
        assert_eq!(input_e.children[k].name, "selection");
        assert_eq!(attr(&input_e.children[k], "id"), Some(format!("id{}", k).as_str()));
        assert_eq!(attr(&input_e.children[k], "title"), Some(format!("t{}", k).as_str()));
    }
}

#[test]
fn text_input_attrs() {
    let input = Input {
        id: "name".to_string(),
        type_: InputType::Text(Some("dflt".to_string())),
        place_holder_content: Some("type here".to_string()),
        title: None,
    };
    let mut parent = XmlElem::new_elem("toast");
    add_actions(&vec![ActionsElem::Input_(input)], &mut parent);
    let input_e = &parent.children[0].children[0];
    assert_eq!(attr(input_e, "type"), Some("text"));
    assert_eq!(attr(input_e, "placeHolderContent"), Some("type here"));
    assert_eq!(attr(input_e, "defaultInput"), Some("dflt"));
    assert_eq!(attr(input_e, "title"), None);
    assert_eq!(input_e.children.len(), 0);
}

#[test]
fn context_menu_placement_overrides_activation_type() {
    let mut a = plain_action("menu entry");
    a.activation_type = ActivationType::Protocol;
    a.placement = ActionPlacement::ContextMenu;
    let mut parent = XmlElem::new_elem("toast");
    add_actions(&vec![ActionsElem::Action_(a)], &mut parent);
    let action_e = &parent.children[0].children[0];
    assert_eq!(attr(action_e, "activationType"), Some("contextMenu"));
}

#[test]
fn unknown_button_style_is_dropped() {
    let mut a = plain_action("warn");
    a.hint_button_style = Some("Warning".to_string());
    let mut parent = XmlElem::new_elem("toast");
    add_actions(&vec![ActionsElem::Action_(a)], &mut parent);
    let action_e = &parent.children[0].children[0];
    assert_eq!(attr(action_e, "hint-buttonStyle"), None);
}

#[test]
fn known_button_styles_are_kept() {
    for style in ["Success", "Critical"] {
        let mut a = plain_action("ok");
        a.hint_button_style = Some(style.to_string());
        let mut parent = XmlElem::new_elem("toast");
        add_actions(&vec![ActionsElem::Action_(a)], &mut parent);
        let action_e = &parent.children[0].children[0];
        assert_eq!(attr(action_e, "hint-buttonStyle"), Some(style));
    }
}

#[test]
fn action_optional_attrs() {
    let mut a = plain_action("go");
    a.image_uri = Some("https://x/i.png".to_string());
    a.hint_input_id = Some("name".to_string());
    a.hint_tool_tip = Some("tip".to_string());
    let mut parent = XmlElem::new_elem("toast");
    add_actions(&vec![ActionsElem::Action_(a)], &mut parent);
    let action_e = &parent.children[0].children[0];
    assert_eq!(attr(action_e, "content"), Some("go"));
    assert_eq!(attr(action_e, "arguments"), Some("args"));
    assert_eq!(attr(action_e, "activationType"), Some("foreground"));
    assert_eq!(attr(action_e, "imageUri"), Some("https://x/i.png"));
    assert_eq!(attr(action_e, "hint-inputId"), Some("name"));
    assert_eq!(attr(action_e, "hint-toolTip"), Some("tip"));
}

#[test]
fn all_empty_subgroups_emit_no_group() {
    let mut parent = XmlElem::new_elem("binding");
    let r = add_group(&vec![vec![], vec![]], &mut parent);
    assert!(r.is_ok());
    assert_eq!(parent.children.len(), 0);
}

#[test]
fn empty_outer_group_emits_nothing() {
    let mut parent = XmlElem::new_elem("binding");
    add_group(&vec![], &mut parent).unwrap();
    assert_eq!(parent.children.len(), 0);
}

#[test]
fn group_drops_empty_subgroups_and_keeps_the_rest() {
    let styled = InnerText {
        text: "left column".to_string(),
        hint_style: TextStyle::Base,
        hint_warp: Some(true),
        hint_max_lines: Some(2),
        hint_min_lines: Some(1),
        hint_align: TextAlign::Left,
    };
    let group = vec![
        vec![],
        vec![
            SubgroupElement::Text_(styled),
            SubgroupElement::Image_(plain_image("ms-appx:///b.png")),
        ],
        vec![],
    ];
    let mut parent = XmlElem::new_elem("binding");
    add_group(&group, &mut parent).unwrap();
    assert_eq!(parent.children.len(), 1);
    let group_e = &parent.children[0];
    assert_eq!(group_e.name, "group");
    assert_eq!(group_e.children.len(), 1);
    let sub = &group_e.children[0];
    assert_eq!(sub.name, "subgroup");
    assert_eq!(sub.children.len(), 2);
    let text_e = &sub.children[0];
    assert_eq!(text_e.name, "text");
    assert_eq!(text_e.text, "left column");
    let attr_names: Vec<&str> = text_e.attrs.iter().map(|(n, _)| n.as_str()).collect();
    assert_eq!(
        attr_names,
        vec!["hint-maxLines", "hint-minLines", "hint-warp", "hint-style", "hint-align"]
    );
    assert_eq!(attr(text_e, "hint-maxLines"), Some("2"));
    assert_eq!(attr(text_e, "hint-minLines"), Some("1"));
    assert_eq!(attr(text_e, "hint-warp"), Some("true"));
    assert_eq!(attr(text_e, "hint-style"), Some("base"));
    assert_eq!(attr(text_e, "hint-align"), Some("left"));
    assert_eq!(sub.children[1].name, "image");
}

#[test]
fn wrap_hint_false_is_never_written() {
    let styled = InnerText {
        text: "t".to_string(),
        hint_style: TextStyle::Default,
        hint_warp: Some(false),
        hint_max_lines: None,
        hint_min_lines: None,
        hint_align: TextAlign::Default,
    };
    let mut parent = XmlElem::new_elem("binding");
    add_group(&vec![vec![SubgroupElement::Text_(styled)]], &mut parent).unwrap();
    let text_e = &parent.children[0].children[0].children[0];
    assert_eq!(text_e.attrs.len(), 0);
}

#[test]
fn group_with_bad_image_fails() {
    let group = vec![vec![SubgroupElement::Image_(plain_image(""))]];
    let mut parent = XmlElem::new_elem("binding");
    assert_eq!(add_group(&group, &mut parent), Err(ValidationError::EmptyImageSrc));
    assert_eq!(parent.children.len(), 0);
}

#[test]
fn nonlooping_source_forces_loop_false() {
    let mut parent = XmlElem::new_elem("toast");
    add_audio(&Some((true, false, SoundSrc::Mail)), &mut parent);
    let audio_e = &parent.children[0];
    assert_eq!(audio_e.name, "audio");
    assert_eq!(attr(audio_e, "loop"), Some("false"));
    assert_eq!(attr(audio_e, "silent"), Some("false"));
    assert_eq!(attr(audio_e, "src"), Some("ms-winsoundevent:Notification.Mail"));
}

#[test]
fn looping_source_keeps_the_flag() {
    let mut parent = XmlElem::new_elem("toast");
    add_audio(&Some((true, true, SoundSrc::Alarm3)), &mut parent);
    let audio_e = &parent.children[0];
    assert_eq!(attr(audio_e, "loop"), Some("true"));
    assert_eq!(attr(audio_e, "silent"), Some("true"));
    assert_eq!(
        attr(audio_e, "src"),
        Some("ms-winsoundevent:Notification.Looping.Alarm3")
    );
}

#[test]
fn looping_source_with_flag_off_stays_false() {
    let mut parent = XmlElem::new_elem("toast");
    add_audio(&Some((false, false, SoundSrc::Call10)), &mut parent);
    let audio_e = &parent.children[0];
    assert_eq!(attr(audio_e, "loop"), Some("false"));
    assert_eq!(
        attr(audio_e, "src"),
        Some("ms-winsoundevent:Notification.Looping.Call10")
    );
}

#[test]
fn no_audio_appends_nothing() {
    let mut parent = XmlElem::new_elem("toast");
    add_audio(&None, &mut parent);
    assert_eq!(parent.children.len(), 0);
}

#[test]
fn top_level_attrs_for_non_default_members() {
    let mut t = simple_toast(vec![]);
    t.duration = Duration::Long;
    t.scenario = Scenario::Urgent;
    t.use_btn_style = true;
    t.display_timestamp = Some("2024-01-01T08:00:00Z".to_string());
    let doc = t.create_notification().unwrap();
    let names: Vec<&str> = doc.attrs.iter().map(|(n, _)| n.as_str()).collect();
    assert_eq!(
        names,
        vec!["useButtonStyle", "displayTimestamp", "duration", "scenario"]
    );
    assert_eq!(attr(&doc, "useButtonStyle"), Some("true"));
    assert_eq!(attr(&doc, "displayTimestamp"), Some("2024-01-01T08:00:00Z"));
    assert_eq!(attr(&doc, "duration"), Some("long"));
    assert_eq!(attr(&doc, "scenario"), Some("urgent"));
}

#[test]
fn icon_and_hero_come_before_the_title() {
    let mut t = simple_toast(vec![]);
    t.binding_elems[0].icon = Some(Image {
        src: "icon.png".to_string(),
        alt: "logo".to_string(),
        hint_crop: HintCrop::Circle,
        hint_align: ImageAlign::Default,
    });
    t.binding_elems[0].hero = Some(plain_image("hero.png"));
    t.binding_elems[0].title = ("hello".to_string(), Some(1));
    let doc = t.create_notification().unwrap();
    let binding = &doc.children[0].children[0];
    assert_eq!(binding.children.len(), 3);
    let icon_e = &binding.children[0];
    assert_eq!(icon_e.name, "image");
    assert_eq!(attr(icon_e, "placement"), Some("appLogoOverride"));
    assert_eq!(attr(icon_e, "hint-crop"), Some("circle"));
    assert_eq!(attr(icon_e, "alt"), Some("logo"));
    assert_eq!(attr(icon_e, "hint-align"), None);
    let hero_e = &binding.children[1];
    assert_eq!(attr(hero_e, "placement"), Some("hero"));
    let title_e = &binding.children[2];
    assert_eq!(title_e.name, "text");
    assert_eq!(title_e.text, "hello");
    assert_eq!(attr(title_e, "hint-maxLines"), Some("1"));
}

#[test]
fn audio_and_actions_follow_the_visual_element() {
    let mut t = simple_toast(vec![]);
    t.audio = Some((false, false, SoundSrc::Default));
    t.actions = vec![ActionsElem::Action_(plain_action("ok"))];
    let doc = t.create_notification().unwrap();
    let names: Vec<&str> = doc.children.iter().map(|c| c.name.as_str()).collect();
    assert_eq!(names, vec!["visual", "audio", "actions"]);
}

#[test]
fn style_and_alignment_literals() {
    let styled = InnerText {
        text: "s".to_string(),
        hint_style: TextStyle::SubtitleSubtle,
        hint_warp: None,
        hint_max_lines: None,
        hint_min_lines: None,
        hint_align: TextAlign::Auto,
    };
    let mut img = plain_image("x.png");
    img.hint_align = ImageAlign::Stretch;
    let group = vec![vec![
        SubgroupElement::Text_(styled),
        SubgroupElement::Image_(img),
    ]];
    let mut parent = XmlElem::new_elem("binding");
    add_group(&group, &mut parent).unwrap();
    let sub = &parent.children[0].children[0];
    assert_eq!(attr(&sub.children[0], "hint-style"), Some("subtitleSubtle"));
    assert_eq!(attr(&sub.children[0], "hint-align"), Some("auto"));
    assert_eq!(attr(&sub.children[1], "hint-align"), Some("stretch"));
}

#[test]
fn scenario_literals() {
    for (scenario, expected) in [
        (Scenario::Alarm, "alarm"),
        (Scenario::Reminder, "reminder"),
        (Scenario::IncomingCall, "incomingCall"),
        (Scenario::Urgent, "urgent"),
    ] {
        let mut t = simple_toast(vec![]);
        t.duration = Duration::Default;
        t.scenario = scenario;
        let doc = t.create_notification().unwrap();
        assert_eq!(attr(&doc, "scenario"), Some(expected));
        assert_eq!(attr(&doc, "duration"), None);
    }
}

#[test]
fn protocol_and_background_activation_literals() {
    for (kind, expected) in [
        (ActivationType::Background, "background"),
        (ActivationType::Protocol, "protocol"),
    ] {
        let mut a = plain_action("x");
        a.activation_type = kind;
        let mut parent = XmlElem::new_elem("toast");
        add_actions(&vec![ActionsElem::Action_(a)], &mut parent);
        assert_eq!(
            attr(&parent.children[0].children[0], "activationType"),
            Some(expected)
        );
    }
}

#[test]
fn hint_line_numbers_render_in_decimal() {
    let styled = InnerText {
        text: "n".to_string(),
        hint_style: TextStyle::Default,
        hint_warp: None,
        hint_max_lines: Some(0),
        hint_min_lines: Some(4294967295),
        hint_align: TextAlign::Default,
    };
    let mut parent = XmlElem::new_elem("binding");
    add_group(&vec![vec![SubgroupElement::Text_(styled)]], &mut parent).unwrap();
    let text_e = &parent.children[0].children[0].children[0];
    assert_eq!(attr(text_e, "hint-maxLines"), Some("0"));
    assert_eq!(attr(text_e, "hint-minLines"), Some("4294967295"));
}
