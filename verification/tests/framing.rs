use orangeirc::framer::Framer;

fn feed(f: &mut Framer, chunk: &[u8]) -> Vec<Vec<u8>> {
    f.feed(chunk)
}

#[test]
fn single_chunk_multiple_lines() {
    let mut f = Framer::new();
    let lines = feed(&mut f, b"L1\r\nL2\r\npartial");
    assert_eq!(lines, vec![b"L1".to_vec(), b"L2".to_vec()]);
    let lines = feed(&mut f, b"\r\n");
    assert_eq!(lines, vec![b"partial".to_vec()]);
}

#[test]
fn terminator_split_across_chunks() {
    let mut f = Framer::new();
    let lines = feed(&mut f, b"L1\r");
    assert_eq!(lines, Vec::<Vec<u8>>::new());
    let lines = feed(&mut f, b"\nL2\r\n");
    assert_eq!(lines, vec![b"L1".to_vec(), b"L2".to_vec()]);
}

#[test]
fn line_split_across_many_chunks() {
    let mut f = Framer::new();
    assert_eq!(feed(&mut f, b"ab"), Vec::<Vec<u8>>::new());
    assert_eq!(feed(&mut f, b"c\r"), Vec::<Vec<u8>>::new());
    assert_eq!(feed(&mut f, b"\nde\r\nf"), vec![b"abc".to_vec(), b"de".to_vec()]);
    assert_eq!(feed(&mut f, b"\r\n"), vec![b"f".to_vec()]);
}

#[test]
fn empty_chunk_yields_nothing() {
    let mut f = Framer::new();
    assert_eq!(feed(&mut f, b""), Vec::<Vec<u8>>::new());
    assert_eq!(feed(&mut f, b"a\r\n"), vec![b"a".to_vec()]);
}

#[test]
fn carriage_return_alone_is_no_terminator() {
    let mut f = Framer::new();
    let lines = feed(&mut f, b"a\rb\r\n");
    assert_eq!(lines, vec![b"a\rb".to_vec()]);
}

#[test]
fn newline_alone_is_no_terminator() {
    let mut f = Framer::new();
    let lines = feed(&mut f, b"a\nb\r\n");
    assert_eq!(lines, vec![b"a\nb".to_vec()]);
}

#[test]
fn empty_lines_are_kept() {
    let mut f = Framer::new();
    let lines = feed(&mut f, b"\r\n\r\n");
    assert_eq!(lines, vec![b"".to_vec(), b"".to_vec()]);
}
