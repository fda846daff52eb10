use einkvnc::vnc::{
    authenticate, full_rect, needs_missing_password, sd_color_format, AuthChoice, AuthMethod,
    Connection, Rect,
};

fn con<'a>(username: Option<&'a str>, password: Option<&'a str>) -> Connection<'a> {
    Connection { host: "localhost", port: 5900, username, password, exclusive: false }
}

#[test]
fn whole_frame_buffer_region() {
    assert_eq!(full_rect((800, 600)), Rect { left: 0, top: 0, width: 800, height: 600 });
    assert_eq!(full_rect((0, 65535)), Rect { left: 0, top: 0, width: 0, height: 65535 });
}

#[test]
fn no_offered_method_gives_no_choice() {
    assert!(authenticate(&con(None, None), &[]).is_none());
    assert!(authenticate(&con(None, None), &[AuthMethod::Unknown]).is_none());
    assert!(authenticate(&con(Some("u"), None), &[AuthMethod::AppleRemoteDesktop]).is_none());
}

#[test]
fn first_usable_method_decides() {
    let c = con(Some("user"), Some("secret"));
    assert!(matches!(
        authenticate(&c, &[AuthMethod::Unknown, AuthMethod::NoAuth, AuthMethod::Password]),
        Some(AuthChoice::NoAuth)
    ));
    assert!(matches!(
        authenticate(&c, &[AuthMethod::Password, AuthMethod::NoAuth]),
        Some(AuthChoice::Password(_))
    ));
    match authenticate(&c, &[AuthMethod::AppleRemoteDesktop, AuthMethod::NoAuth]) {
        Some(AuthChoice::AppleRemoteDesktop(u, p)) => {
            assert_eq!(u, "user");
            assert_eq!(p, "secret");
        }
        other => panic!("unexpected choice {:?}", other),
    }
    // Without a user name the method is passed over.
    let c = con(None, Some("secret"));
    assert!(matches!(
        authenticate(&c, &[AuthMethod::AppleRemoteDesktop, AuthMethod::NoAuth]),
        Some(AuthChoice::NoAuth)
    ));
}

#[test]
fn password_key_is_first_eight_bytes_padded() {
    match authenticate(&con(None, Some("123456")), &[AuthMethod::Password]) {
        Some(AuthChoice::Password(key)) => {
            assert_eq!(key, [b'1', b'2', b'3', b'4', b'5', b'6', 0, 0]);
        }
        other => panic!("unexpected choice {:?}", other),
    }
    match authenticate(&con(None, Some("abcdefghij")), &[AuthMethod::Password]) {
        Some(AuthChoice::Password(key)) => assert_eq!(&key, b"abcdefgh"),
        other => panic!("unexpected choice {:?}", other),
    }
    match authenticate(&con(None, Some("")), &[AuthMethod::Password]) {
        Some(AuthChoice::Password(key)) => assert_eq!(key, [0u8; 8]),
        other => panic!("unexpected choice {:?}", other),
    }
    // Bytes, not characters: a two-byte character takes two places.
    match authenticate(&con(None, Some("é")), &[AuthMethod::Password]) {
        Some(AuthChoice::Password(key)) => assert_eq!(key, [0xc3, 0xa9, 0, 0, 0, 0, 0, 0]),
        other => panic!("unexpected choice {:?}", other),
    }
}

#[test]
fn password_method_without_password_is_told_before_the_choice() {
    // Password authentication is the first method that settles it, and the
    // connection has no password: the caller must not go on to choose.
    let bare = con(Some("u"), None);
    assert!(needs_missing_password(&bare, &[AuthMethod::Password, AuthMethod::NoAuth]));
    assert!(needs_missing_password(
        &bare,
        &[AuthMethod::Unknown, AuthMethod::AppleRemoteDesktop, AuthMethod::Password]
    ));
    // A method in front that settles it comes first.
    let methods = [AuthMethod::NoAuth, AuthMethod::Password];
    assert!(!needs_missing_password(&con(None, None), &methods));
    assert!(matches!(authenticate(&con(None, None), &methods), Some(AuthChoice::NoAuth)));
    // With a password nothing is missing.
    let keyed = con(None, Some("secret"));
    assert!(!needs_missing_password(&keyed, &[AuthMethod::Password]));
    assert!(!needs_missing_password(&keyed, &[AuthMethod::AppleRemoteDesktop, AuthMethod::Password]));
    assert!(!needs_missing_password(&bare, &[]));
    assert!(!needs_missing_password(&bare, &[AuthMethod::Unknown, AuthMethod::AppleRemoteDesktop]));
}

#[test]
fn requested_pixel_format() {
    let format = sd_color_format();
    assert_eq!((format.bits_per_pixel, format.depth), (8, 16));
    assert!(!format.big_endian && format.true_colour);
    assert_eq!((format.red_max, format.green_max, format.blue_max), (255, 255, 255));
    assert_eq!((format.red_shift, format.green_shift, format.blue_shift), (16, 8, 0));
}
