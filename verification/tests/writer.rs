use lucet_idl::pretty_writer::PrettyWriter;

#[test]
fn lines_are_indented_by_block_depth() {
    let mut w = PrettyWriter::new();
    w.write_line("a {");
    w.begin_block();
    w.write_line("b");
    w.begin_block();
    w.write_line("c");
    w.end_block();
    w.write_line("d");
    w.end_block();
    w.write_line("}");
    assert_eq!(w.buf, "a {\n    b\n        c\n    d\n}\n");
}

#[test]
fn eob_appends_a_blank_line() {
    let mut w = PrettyWriter::new();
    w.write_line("x");
    w.eob();
    w.write_line("y");
    assert_eq!(w.buf, "x\n\ny\n");
}
