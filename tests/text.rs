use clide::path::normalize;
use clide::text::{chars_of, split_lines};

#[test]
fn lines_split_like_str_lines() {
    assert_eq!(split_lines(""), Vec::<Vec<char>>::new());
    assert_eq!(split_lines("\n"), vec![Vec::<char>::new()]);
    assert_eq!(split_lines("a\r\nb\n"), vec![vec!['a'], vec!['b']]);
    assert_eq!(split_lines("a\n\nb"), vec![vec!['a'], vec![], vec!['b']]);
    assert_eq!(split_lines("x\r"), vec![vec!['x', '\r']]);
}

#[test]
fn chars_round_trip() {
    let c = chars_of("héllo");
    assert_eq!(c, vec!['h', 'é', 'l', 'l', 'o']);
    assert_eq!(normalize("/héllo/ü/"), "/héllo/ü");
}
