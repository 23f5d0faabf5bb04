use square::credentials::{generate_password, SecretStep, UserCredential, VaultSecret, PASSWORD_LEN};
use square::geometry::{clamp_dimension, Size};
use square::pip::{plan_pip, PipError, PipRequest};
use square::pixel_format::{pick_format, FormatTraits};
use square::playback::PlaybackEvent;
use square::registry::SurfaceRegistry;

#[test]
fn clamp_raises_zero_only() {
    assert_eq!(clamp_dimension(0), 1);
    assert_eq!(clamp_dimension(1), 1);
    assert_eq!(clamp_dimension(u32::MAX), u32::MAX);
    assert_eq!(Size::clamped(0, 7), Size { width: 1, height: 7 });
}

#[test]
fn registry_insert_replace_remove() {
    let mut r = SurfaceRegistry::new("main".to_string(), Size { width: 10, height: 10 });
    r.insert("pip".to_string(), Size { width: 5, height: 5 });
    r.insert("pip".to_string(), Size { width: 6, height: 6 });
    assert_eq!(r.get(&"pip".to_string()), Some(Size { width: 6, height: 6 }));
    assert!(r.set_size(&"main".to_string(), Size { width: 3, height: 4 }));
    assert!(!r.set_size(&"other".to_string(), Size { width: 3, height: 4 }));
    assert!(r.remove(&"pip".to_string()));
    assert!(!r.remove(&"pip".to_string()));
    assert!(!r.contains(&"pip".to_string()));
    assert_eq!(r.get(&"main".to_string()), Some(Size { width: 3, height: 4 }));
}

#[test]
fn generated_password_is_alphanumeric() {
    let p = generate_password();
    assert_eq!(p.chars().count(), PASSWORD_LEN);
    assert_eq!(p.len(), 32);
    assert!(p.chars().all(|c| c.is_ascii_alphanumeric()));
    assert_ne!(p, generate_password());
}

#[test]
fn vault_secret_first_value_wins() {
    let mut v = VaultSecret::new();
    assert!(v.cached().is_none());
    match v.after_lookup(None) {
        SecretStep::StoreNew(p) => {
            assert_eq!(p.len(), PASSWORD_LEN);
            assert!(v.cached().is_none());
            assert_eq!(v.after_store(p.clone()), p);
            assert_eq!(v.cached(), Some(p.clone()));
            assert_eq!(v.after_store("other".to_string()), p);
            match v.after_lookup(Some("stored".to_string())) {
                SecretStep::Ready(q) => assert_eq!(q, p),
                other => panic!("unexpected {:?}", other),
            }
        }
        other => panic!("unexpected {:?}", other),
    }
}

#[test]
fn vault_secret_keeps_found_password() {
    let mut v = VaultSecret::new();
    match v.after_lookup(Some("from-keyring".to_string())) {
        SecretStep::Ready(p) => assert_eq!(p, "from-keyring"),
        other => panic!("unexpected {:?}", other),
    }
    assert_eq!(v.cached(), Some("from-keyring".to_string()));
    let c = UserCredential { password: "x".to_string(), saved_at: 7 };
    assert_eq!(c.saved_at, 7);
}

#[test]
fn pip_requests() {
    let main = "main".to_string();
    let pip = "pip".to_string();
    let r = plan_pip(PipRequest::Show, true, false, &main, &pip).unwrap();
    assert!(r.show && matches!(r.switch, PlaybackEvent::SwitchTarget(ref t) if t == "pip"));
    let r = plan_pip(PipRequest::Hide, true, true, &main, &pip).unwrap();
    assert!(!r.show && matches!(r.switch, PlaybackEvent::SwitchTarget(ref t) if t == "main"));
    let r = plan_pip(PipRequest::Toggle, true, true, &main, &pip).unwrap();
    assert!(!r.show && matches!(r.switch, PlaybackEvent::SwitchTarget(ref t) if t == "main"));
    let r = plan_pip(PipRequest::Toggle, true, false, &main, &pip).unwrap();
    assert!(r.show && matches!(r.switch, PlaybackEvent::SwitchTarget(ref t) if t == "pip"));
    let e = plan_pip(PipRequest::Show, false, false, &main, &pip).unwrap_err();
    assert_eq!(e, PipError::NotAvailable);
    assert_eq!(e.message(), "PiP window not available");
}

#[test]
fn pixel_format_choice() {
    let f = |transparent, samples| FormatTraits { transparent, samples };
    assert_eq!(pick_format(&vec![]), None);
    assert_eq!(pick_format(&vec![f(false, 4)]), Some(0));
    assert_eq!(pick_format(&vec![f(false, 4), f(true, 8), f(true, 2)]), Some(2));
    assert_eq!(pick_format(&vec![f(true, 0), f(false, 4), f(false, 0)]), Some(0));
    assert_eq!(pick_format(&vec![f(false, 8), f(false, 8), f(true, 8)]), Some(2));
}
