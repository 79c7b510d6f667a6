use gpui_native::element_id::ElementId;
use gpui_native::menu::{
    map_items, native_context_menu, native_menu_button, NativeMenuItem, NativeMenuItemData,
};
use gpui_native::outline::{map_nodes, NativeOutlineNode, NativeOutlineNodeData};

fn sample_menu() -> Vec<NativeMenuItem> {
    vec![
        NativeMenuItem::action("Open"),
        NativeMenuItem::separator(),
        NativeMenuItem::submenu(
            "Recent",
            vec![NativeMenuItem::action("a.txt"), NativeMenuItem::action("b.txt").enabled(false)],
        )
        .enabled(false),
    ]
}

#[test]
fn menu_item_constructors() {
    assert_eq!(
        NativeMenuItem::action("Copy"),
        NativeMenuItem::Action { title: "Copy".to_string(), enabled: true }
    );
    assert_eq!(NativeMenuItem::separator(), NativeMenuItem::Separator);
    assert_eq!(NativeMenuItem::separator().enabled(false), NativeMenuItem::Separator);
    assert_eq!(
        NativeMenuItem::action("Copy").enabled(false),
        NativeMenuItem::Action { title: "Copy".to_string(), enabled: false }
    );
    let sub = NativeMenuItem::submenu("More", vec![NativeMenuItem::separator()]);
    assert_eq!(
        sub,
        NativeMenuItem::Submenu {
            title: "More".to_string(),
            enabled: true,
            items: vec![NativeMenuItem::Separator],
        }
    );
    assert_eq!(sub.duplicate(), sub);
}

#[test]
fn map_items_keeps_tree_without_icons() {
    let data = map_items(&sample_menu());
    assert_eq!(
        data,
        vec![
            NativeMenuItemData::Action { title: "Open".to_string(), enabled: true, icon: None },
            NativeMenuItemData::Separator,
            NativeMenuItemData::Submenu {
                title: "Recent".to_string(),
                enabled: false,
                icon: None,
                items: vec![
                    NativeMenuItemData::Action { title: "a.txt".to_string(), enabled: true, icon: None },
                    NativeMenuItemData::Action { title: "b.txt".to_string(), enabled: false, icon: None },
                ],
            },
        ]
    );
    assert!(map_items(&[]).is_empty());
}

#[test]
fn menu_button_and_context_menu_configs() {
    let items = sample_menu();
    let mut m = native_menu_button::<u8>(ElementId::name("file"), "File", &items);
    assert_eq!(m.intrinsic_size(), (140, 26));
    let cfg = m.take_config();
    assert_eq!(cfg.title, "File");
    assert!(!cfg.context_menu);
    assert_eq!(cfg.items, map_items(&items));
    assert!(cfg.enabled);
    assert!(cfg.on_select.is_none());
    let mut c = native_context_menu::<u8>(ElementId::name("ctx"), "A rather long menu label", &items)
        .disabled(true)
        .on_select(4);
    // 24 bytes * 8 + 40 = 232
    assert_eq!(c.intrinsic_size(), (232, 26));
    let cfg = c.take_config();
    assert!(cfg.context_menu);
    assert!(!cfg.enabled);
    assert_eq!(cfg.on_select, Some(4));
    assert!(c.take_config().on_select.is_none());
}

#[test]
fn outline_nodes_map_to_native_data() {
    let tree = vec![
        NativeOutlineNode::branch(
            "src",
            vec![NativeOutlineNode::leaf("lib.rs"), NativeOutlineNode::branch("bin", vec![NativeOutlineNode::leaf("main.rs")])],
        ),
        NativeOutlineNode::leaf("README.md"),
    ];
    assert_eq!(tree[1], NativeOutlineNode { title: "README.md".to_string(), children: vec![] });
    let data = map_nodes(&tree);
    assert_eq!(
        data,
        vec![
            NativeOutlineNodeData {
                title: "src".to_string(),
                children: vec![
                    NativeOutlineNodeData { title: "lib.rs".to_string(), children: vec![] },
                    NativeOutlineNodeData {
                        title: "bin".to_string(),
                        children: vec![NativeOutlineNodeData { title: "main.rs".to_string(), children: vec![] }],
                    },
                ],
            },
            NativeOutlineNodeData { title: "README.md".to_string(), children: vec![] },
        ]
    );
}
