use sailfish::buffer::Buffer;
use sailfish::escape::escape_to_buf;
use sailfish::path::OsPath;
use sailfish::render::Render;

fn raw<T: Render + ?Sized>(v: &T) -> String {
    let mut b = Buffer::new();
    v.render(&mut b).unwrap();
    b.into_string()
}

fn escaped<T: Render + ?Sized>(v: &T) -> String {
    let mut b = Buffer::new();
    v.render_escaped(&mut b).unwrap();
    b.into_string()
}

#[test]
fn receiver_coercion() {
    let mut b = Buffer::new();
    (&1).render(&mut b).unwrap();
    (&&1).render(&mut b).unwrap();
    (&&&1).render(&mut b).unwrap();
    (&&&&1).render(&mut b).unwrap();

    // floats are rendered through their shortest round-trip text
    let v = 2.0;
    let mut fb = ryu::Buffer::new();
    let t = fb.format(v);
    (&t).render(&mut b).unwrap();
    (&&t).render(&mut b).unwrap();
    (&&&t).render(&mut b).unwrap();
    (&&&&t).render(&mut b).unwrap();

    let s = "apple";
    (&*s).render_escaped(&mut b).unwrap();
    (&s).render_escaped(&mut b).unwrap();
    (&&s).render_escaped(&mut b).unwrap();
    (&&&s).render_escaped(&mut b).unwrap();
    (&&&&s).render_escaped(&mut b).unwrap();

    (&'c').render_escaped(&mut b).unwrap();
    (&&'<').render_escaped(&mut b).unwrap();
    (&&&'&').render_escaped(&mut b).unwrap();
    (&&&&' ').render_escaped(&mut b).unwrap();

    assert_eq!(
        b.as_str(),
        "11112.02.02.02.0appleappleappleappleapplec&lt;&amp; "
    );
}

#[test]
fn text_raw_and_escaped() {
    assert_eq!(raw("Tom & Jerry"), "Tom & Jerry");
    assert_eq!(escaped("Tom & Jerry"), "Tom &amp; Jerry");
    let owned = String::from("Tom & Jerry");
    assert_eq!(raw(&owned), "Tom & Jerry");
    assert_eq!(escaped(&owned), "Tom &amp; Jerry");
}

#[test]
fn text_every_markup_character() {
    let s = "<a href=\"x\">R&D</a> it's";
    assert_eq!(
        escaped(s),
        "&lt;a href=&quot;x&quot;&gt;R&amp;D&lt;/a&gt; it's"
    );
    assert_eq!(raw(s), s);
    assert_eq!(escaped(""), "");
    assert_eq!(escaped("plain text"), "plain text");
}

#[test]
fn escape_primitive_appends() {
    let mut b = Buffer::new();
    b.write_str("x=");
    escape_to_buf("\"&<>é", &mut b);
    b.write_char('!');
    assert_eq!(b.into_string(), "x=&quot;&amp;&lt;&gt;é!");
}

#[test]
fn negative_integer() {
    assert_eq!(raw(&-42i64), "-42");
    assert_eq!(escaped(&-42i64), "-42");
}

#[test]
fn integer_widths_and_bounds() {
    assert_eq!(raw(&0u8), "0");
    assert_eq!(raw(&255u8), "255");
    assert_eq!(raw(&i8::MIN), "-128");
    assert_eq!(raw(&u16::MAX), "65535");
    assert_eq!(raw(&i16::MIN), "-32768");
    assert_eq!(raw(&1234u32), "1234");
    assert_eq!(raw(&i32::MIN), "-2147483648");
    assert_eq!(raw(&u64::MAX), "18446744073709551615");
    assert_eq!(raw(&i64::MIN), "-9223372036854775808");
    assert_eq!(raw(&0usize), "0");
    assert_eq!(raw(&-7isize), "-7");
    assert_eq!(escaped(&u64::MAX), "18446744073709551615");
}

#[test]
fn integer_round_trip() {
    for n in [i64::MIN, -1000, -1, 0, 9, 10, 99, 100, i64::MAX] {
        assert_eq!(raw(&n).parse::<i64>().unwrap(), n);
        assert_eq!(escaped(&n), raw(&n));
    }
    for n in [0u64, 1, 10, u64::MAX] {
        assert_eq!(raw(&n).parse::<u64>().unwrap(), n);
    }
}

#[test]
fn float_text_round_trips() {
    let v = 0.1f64;
    let mut fb = ryu::Buffer::new();
    let t = fb.format(v);
    let out = raw(&t);
    assert_eq!(out.parse::<f64>().unwrap().to_bits(), v.to_bits());
    assert_eq!(escaped(&t), out);
}

#[test]
fn character_escape() {
    assert_eq!(escaped(&'<'), "&lt;");
    assert_eq!(escaped(&'x'), "x");
    assert_eq!(escaped(&'"'), "&quot;");
    assert_eq!(escaped(&'&'), "&amp;");
    assert_eq!(escaped(&'>'), "&gt;");
    assert_eq!(escaped(&'\''), "'");
    assert_eq!(raw(&'<'), "<");
}

#[test]
fn booleans() {
    assert_eq!(raw(&true), "true");
    assert_eq!(raw(&false), "false");
    assert_eq!(escaped(&true), "true");
    assert_eq!(escaped(&false), "false");
}

#[test]
fn paths() {
    let p = OsPath::from_bytes(b"/tmp/a<b>&c".to_vec());
    assert_eq!(raw(&p), "/tmp/a<b>&c");
    assert_eq!(escaped(&p), "/tmp/a&lt;b&gt;&amp;c");
    assert_eq!(raw(&&p), "/tmp/a<b>&c");
    assert_eq!(escaped(&&p), "/tmp/a&lt;b&gt;&amp;c");
    assert_eq!(p.as_bytes(), b"/tmp/a<b>&c");
}

#[test]
fn path_with_invalid_encoding() {
    let p = OsPath::from_bytes(vec![b'f', 0xff, b'<']);
    assert_eq!(raw(&p), "f\u{FFFD}<");
    assert_eq!(escaped(&p), "f\u{FFFD}&lt;");
}

#[test]
fn rendering_appends() {
    let mut b = Buffer::new();
    "a".render(&mut b).unwrap();
    7u8.render_escaped(&mut b).unwrap();
    '&'.render_escaped(&mut b).unwrap();
    false.render(&mut b).unwrap();
    assert_eq!(b.into_string(), "a7&amp;false");
}
