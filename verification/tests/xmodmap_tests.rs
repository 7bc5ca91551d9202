use kdwm::bindings::raw_key_bindings;
use penrose::x11rb::RustConn;
use penrose_keysyms::XKeySym;
use std::collections::HashMap;

fn placeholder() -> Box<dyn penrose::core::bindings::KeyEventHandler<RustConn>> {
    Box::new(|_: &mut penrose::core::State<RustConn>, _: &RustConn| Ok(()))
}

/// `parse_keybindings_with_xmodmap` cuts each key at `-`, reads every part but
/// the last as a modifier and looks the last up among the key names that
/// `xmodmap -pke` lists for the X display, which are X keysym names. This
/// checks both without a display: every modifier is one penrose accepts and
/// every key name is an X keysym name.
#[test]
fn bindings_parse_correctly_with_xmodmap() {
    let bindings: HashMap<String, Box<dyn penrose::core::bindings::KeyEventHandler<RustConn>>> = raw_key_bindings()
        .into_iter()
        .map(|(key, _)| (key, placeholder()))
        .collect();
    assert_eq!(bindings.len(), 45);
    for key in bindings.keys() {
        let mut parts: Vec<&str> = key.split('-').collect();
        let name = parts.remove(parts.len() - 1);
        for m in parts {
            if let Err(e) = penrose::core::bindings::ModifierKey::try_from(m) {
                panic!("{key}: {e}");
            }
        }
        if name.parse::<XKeySym>().is_err() {
            panic!("{key}: unknown key name {name}");
        }
    }
}
