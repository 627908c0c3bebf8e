use fractal::coords::{coordinate_fields, join_lines, split_lines, CoordsError};
use fractal::ticks::{frames_per_second, update_tick_list};

fn lines(text: &str) -> Vec<Vec<u8>> {
    split_lines(&text.as_bytes().to_vec())
}

#[test]
fn split_lines_reads_as_a_line_reader() {
    assert_eq!(lines(""), Vec::<Vec<u8>>::new());
    assert_eq!(lines("\n"), vec![b"".to_vec()]);
    assert_eq!(lines("a\nb"), vec![b"a".to_vec(), b"b".to_vec()]);
    assert_eq!(lines("a\r\nb\n"), vec![b"a".to_vec(), b"b".to_vec()]);
    assert_eq!(lines("a\n\nb\r"), vec![b"a".to_vec(), b"".to_vec(), b"b\r".to_vec()]);
}

#[test]
fn join_lines_ends_each_line() {
    let text = join_lines(&vec![b"-0.62".to_vec(), b"".to_vec(), b"1".to_vec()]);
    assert_eq!(text, b"-0.62\n\n1\n".to_vec());
    assert_eq!(join_lines(&Vec::new()), Vec::<u8>::new());
}

#[test]
fn empty_coordinates_are_refused() {
    assert_eq!(coordinate_fields(&Vec::new()), Err(CoordsError::TooFewLines));
    assert_eq!(
        coordinate_fields(&b"1\n2\n3\n".to_vec()),
        Err(CoordsError::TooFewLines)
    );
}

#[test]
fn coordinates_give_every_line() {
    let fields = coordinate_fields(&b"1\n2\n3\n4\n5".to_vec()).unwrap();
    assert_eq!(fields.len(), 5);
    assert_eq!(fields[3], b"4".to_vec());
}

#[test]
fn default_view_survives_save_and_load() {
    let view: [f64; 4] = [-0.62, 0.0, 1.0, 50.0];
    let out: Vec<Vec<u8>> = view.iter().map(|v| format!("{}", v).into_bytes()).collect();
    let text = join_lines(&out);
    assert_eq!(text, b"-0.62\n0\n1\n50\n".to_vec());
    let fields = coordinate_fields(&text).unwrap();
    let back: Vec<f64> = fields
        .iter()
        .map(|l| std::str::from_utf8(l).unwrap().parse::<f64>().unwrap())
        .collect();
    assert_eq!(back, view.to_vec());
}

#[test]
fn tick_window_keeps_six_latest() {
    assert_eq!(update_tick_list(&[], 16), vec![16]);
    assert_eq!(update_tick_list(&[1, 2, 3, 4, 5], 6), vec![1, 2, 3, 4, 5, 6]);
    assert_eq!(update_tick_list(&[1, 2, 3, 4, 5, 6], 7), vec![2, 3, 4, 5, 6, 7]);
}

#[test]
fn fps_averages_over_five_frames() {
    // sum 82, 82 / 5 = 16, 1000 / 16 = 62
    assert_eq!(frames_per_second(&[16, 16, 17, 16, 17]), Some(62));
    assert_eq!(frames_per_second(&[20, 20, 20, 20, 20, 20]), Some(41));
    assert_eq!(frames_per_second(&[-7, -3]), Some(-500));
    assert_eq!(frames_per_second(&[]), None);
    assert_eq!(frames_per_second(&[1, 2, 1]), None);
    assert_eq!(frames_per_second(&[i16::MAX, 1]), None);
}
