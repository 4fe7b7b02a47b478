use genbank_tbl::decimal::decimal_string;
use genbank_tbl::error::{decoding_outcome, sink_outcome};
use genbank_tbl::{
    format_coords, results_to_tbl_string, Attribute, Cds, CdsSegment, Gene, GeneMap, GeneStrand,
    GenbankTblWriter, NextcladeOutputs, Phase, TblError, Truncation,
};

fn attribute(key: &str, values: &[&str]) -> Attribute {
    Attribute { key: key.to_owned(), values: values.iter().map(|v| (*v).to_owned()).collect() }
}

fn gene(start: usize, end: usize, strand: Option<GeneStrand>) -> Gene {
    Gene { start, end, strand, attributes: vec![], cdses: vec![], gff_seqid: None }
}

fn segment(start: usize, end: usize, strand: Option<GeneStrand>) -> CdsSegment {
    CdsSegment {
        start,
        end,
        strand,
        truncation: Truncation::Neither,
        attributes: vec![],
        phase: Phase::Zero,
    }
}

fn spike(strand: GeneStrand) -> Gene {
    let mut g = gene(0, 10, Some(strand));
    g.attributes = vec![attribute("gene", &["S"])];
    g
}

fn render(genes: Vec<Gene>) -> String {
    results_to_tbl_string(&[NextcladeOutputs { annotation: GeneMap { genes } }]).unwrap()
}

fn write(map: &GeneMap) -> Vec<u8> {
    let mut writer = GenbankTblWriter::new(Vec::new()).unwrap();
    writer.write_genemap(map).unwrap();
    writer.into_inner().unwrap()
}

fn tokens(
    start: usize,
    end: usize,
    strand: GeneStrand,
    truncation: Truncation,
) -> (String, String) {
    format_coords(start, end, Some(strand), truncation).unwrap()
}

#[test]
fn empty_set_writes_nothing() {
    let mut writer = GenbankTblWriter::new(Vec::new()).unwrap();
    assert!(writer.write_genemap(&GeneMap { genes: vec![] }).is_ok());
    assert_eq!(writer.into_inner().unwrap(), Vec::<u8>::new());
}

#[test]
fn empty_set_renders_empty_text() {
    assert_eq!(render(vec![]), "");
    assert_eq!(results_to_tbl_string(&[]).unwrap(), "");
}

#[test]
fn forward_gene_with_one_qualifier() {
    assert_eq!(render(vec![spike(GeneStrand::Forward)]), ">Feature \n1\t10\tgene\n\t\t\tgene\tS\n");
}

#[test]
fn forward_gene_bytes() {
    let bytes = write(&GeneMap { genes: vec![spike(GeneStrand::Forward)] });
    assert_eq!(bytes, b">Feature \n1\t10\tgene\n\t\t\tgene\tS\n".to_vec());
}

#[test]
fn reverse_gene_swaps_tokens() {
    assert_eq!(render(vec![spike(GeneStrand::Reverse)]), ">Feature \n10\t1\tgene\n\t\t\tgene\tS\n");
}

#[test]
fn header_carries_first_genes_seqid() {
    let mut first = gene(0, 10, Some(GeneStrand::Forward));
    first.gff_seqid = Some("gb|MN908947.3|".to_owned());
    let mut second = gene(20, 30, Some(GeneStrand::Forward));
    second.gff_seqid = Some("other".to_owned());
    assert_eq!(render(vec![first, second]), ">Feature gb|MN908947.3|\n1\t10\tgene\n21\t30\tgene\n");
}

#[test]
fn header_without_seqid_ends_in_space() {
    let mut second = gene(20, 30, Some(GeneStrand::Forward));
    second.gff_seqid = Some("other".to_owned());
    let text = render(vec![gene(0, 10, Some(GeneStrand::Forward)), second]);
    assert_eq!(text.lines().next(), Some(">Feature "));
}

#[test]
fn five_prime_truncation_forward() {
    let (first, second) = tokens(5, 8, GeneStrand::Forward, Truncation::FivePrime);
    assert_eq!((first.as_str(), second.as_str()), ("<6", "8"));
}

#[test]
fn three_prime_truncation_reverse_marks_second_slot() {
    let (first, second) = tokens(5, 8, GeneStrand::Reverse, Truncation::ThreePrime);
    assert_eq!((first.as_str(), second.as_str()), ("8", ">6"));
}

#[test]
fn truncation_markers_in_every_combination() {
    let cases = [
        (GeneStrand::Forward, Truncation::Neither, "6", "8"),
        (GeneStrand::Forward, Truncation::FivePrime, "<6", "8"),
        (GeneStrand::Forward, Truncation::ThreePrime, "6", ">8"),
        (GeneStrand::Forward, Truncation::Both, "<6", ">8"),
        (GeneStrand::Reverse, Truncation::Neither, "8", "6"),
        (GeneStrand::Reverse, Truncation::FivePrime, "<8", "6"),
        (GeneStrand::Reverse, Truncation::ThreePrime, "8", ">6"),
        (GeneStrand::Reverse, Truncation::Both, "<8", ">6"),
    ];
    for (strand, truncation, first, second) in cases {
        let got = tokens(5, 8, strand, truncation);
        assert_eq!((got.0.as_str(), got.1.as_str()), (first, second));
    }
}

#[test]
fn coordinates_at_the_limits() {
    let (first, second) = tokens(0, 0, GeneStrand::Forward, Truncation::Neither);
    assert_eq!((first.as_str(), second.as_str()), ("1", "0"));
    let (first, second) = tokens(usize::MAX, usize::MAX, GeneStrand::Forward, Truncation::Neither);
    assert_eq!(first, (usize::MAX as u128 + 1).to_string());
    assert_eq!(second, usize::MAX.to_string());
}

#[test]
fn undefined_orientation_is_an_error() {
    assert!(matches!(
        format_coords(5, 8, None, Truncation::Neither),
        Err(TblError::OrientationUndefined)
    ));
}

#[test]
fn decimal_numerals() {
    assert_eq!(decimal_string(0), "0");
    assert_eq!(decimal_string(7), "7");
    assert_eq!(decimal_string(10), "10");
    assert_eq!(decimal_string(21563), "21563");
    assert_eq!(decimal_string(1234567890), "1234567890");
    assert_eq!(decimal_string(u128::MAX), u128::MAX.to_string());
}

#[test]
fn truncated_segment_row() {
    let mut g = gene(0, 100, Some(GeneStrand::Forward));
    let mut seg = segment(5, 8, Some(GeneStrand::Forward));
    seg.truncation = Truncation::FivePrime;
    g.cdses = vec![Cds { segments: vec![seg] }];
    assert_eq!(render(vec![g]), ">Feature \n1\t100\tgene\n<6\t8\tCDS\n");
}

#[test]
fn truncated_reverse_segment_row() {
    let mut g = gene(0, 100, Some(GeneStrand::Reverse));
    let mut seg = segment(5, 8, Some(GeneStrand::Reverse));
    seg.truncation = Truncation::ThreePrime;
    g.cdses = vec![Cds { segments: vec![seg] }];
    assert_eq!(render(vec![g]), ">Feature \n100\t1\tgene\n8\t>6\tCDS\n");
}

#[test]
fn phase_one_adds_codon_start() {
    let mut g = gene(0, 100, Some(GeneStrand::Forward));
    let mut seg = segment(5, 8, Some(GeneStrand::Forward));
    seg.phase = Phase::One;
    seg.attributes = vec![attribute("product", &["spike"])];
    g.cdses = vec![Cds { segments: vec![seg] }];
    assert_eq!(
        render(vec![g]),
        ">Feature \n1\t100\tgene\n6\t8\tCDS\n\t\t\tproduct\tspike\n\t\t\tcodon_start\t2\n"
    );
}

#[test]
fn phase_two_adds_codon_start_three() {
    let mut g = gene(0, 100, Some(GeneStrand::Forward));
    let mut seg = segment(5, 8, Some(GeneStrand::Forward));
    seg.phase = Phase::Two;
    g.cdses = vec![Cds { segments: vec![seg] }];
    assert_eq!(render(vec![g]), ">Feature \n1\t100\tgene\n6\t8\tCDS\n\t\t\tcodon_start\t3\n");
}

#[test]
fn phase_zero_adds_no_codon_start() {
    let mut g = gene(0, 100, Some(GeneStrand::Forward));
    g.cdses = vec![Cds { segments: vec![segment(5, 8, Some(GeneStrand::Forward))] }];
    assert_eq!(render(vec![g]), ">Feature \n1\t100\tgene\n6\t8\tCDS\n");
}

#[test]
fn phase_counts_on_first_segment_only() {
    let mut g = gene(0, 100, Some(GeneStrand::Forward));
    let mut later = segment(20, 30, Some(GeneStrand::Forward));
    later.phase = Phase::Two;
    g.cdses = vec![Cds { segments: vec![segment(5, 8, Some(GeneStrand::Forward)), later] }];
    assert_eq!(render(vec![g]), ">Feature \n1\t100\tgene\n6\t8\tCDS\n21\t30\t\n");
}

#[test]
fn phase_numbers() {
    assert_eq!(Phase::Zero.to_usize(), 0);
    assert_eq!(Phase::One.to_usize(), 1);
    assert_eq!(Phase::Two.to_usize(), 2);
}

#[test]
fn output_follows_input_order() {
    let mut first = gene(100, 200, Some(GeneStrand::Forward));
    first.attributes = vec![
        attribute("zeta", &["2", "1"]),
        attribute("alpha", &["b", "a", "b"]),
        attribute("zeta", &["0"]),
    ];
    let mut seg_a = segment(150, 160, Some(GeneStrand::Forward));
    seg_a.attributes = vec![attribute("note", &["y", "x"])];
    let seg_b = segment(110, 120, Some(GeneStrand::Forward));
    let seg_c = segment(130, 140, Some(GeneStrand::Reverse));
    first.cdses =
        vec![Cds { segments: vec![seg_a, seg_b] }, Cds { segments: vec![] }, Cds { segments: vec![seg_c] }];
    let second = gene(0, 50, Some(GeneStrand::Reverse));
    let expected = concat_lines(&[
        ">Feature ",
        "101\t200\tgene",
        "\t\t\tzeta\t2",
        "\t\t\tzeta\t1",
        "\t\t\talpha\tb",
        "\t\t\talpha\ta",
        "\t\t\talpha\tb",
        "\t\t\tzeta\t0",
        "151\t160\tCDS",
        "\t\t\tnote\ty",
        "\t\t\tnote\tx",
        "111\t120\t",
        "140\t131\tCDS",
        "50\t1\tgene",
    ]);
    assert_eq!(render(vec![first, second]), expected);
}

fn concat_lines(lines: &[&str]) -> String {
    let mut text = String::new();
    for line in lines {
        text.push_str(line);
        text.push('\n');
    }
    text
}

#[test]
fn key_without_values_gives_no_row() {
    let mut g = gene(0, 10, Some(GeneStrand::Forward));
    g.attributes = vec![attribute("empty", &[]), attribute("note", &[""])];
    assert_eq!(render(vec![g]), ">Feature \n1\t10\tgene\n\t\t\tnote\t\n");
}

#[test]
fn content_is_not_quoted_or_escaped() {
    let mut g = gene(0, 10, Some(GeneStrand::Forward));
    g.attributes = vec![attribute("note", &["say \"hi\", there", "50% \\ done"])];
    assert_eq!(
        render(vec![g]),
        ">Feature \n1\t10\tgene\n\t\t\tnote\tsay \"hi\", there\n\t\t\tnote\t50% \\ done\n"
    );
}

#[test]
fn text_beyond_ascii_survives() {
    let mut g = gene(0, 10, Some(GeneStrand::Forward));
    g.gff_seqid = Some("séquence".to_owned());
    g.attributes = vec![attribute("product", &["β-lactamase ☃"])];
    assert_eq!(
        render(vec![g]),
        ">Feature séquence\n1\t10\tgene\n\t\t\tproduct\tβ-lactamase ☃\n"
    );
}

#[test]
fn serializing_twice_gives_identical_bytes() {
    let mut g = spike(GeneStrand::Forward);
    let mut seg = segment(5, 8, Some(GeneStrand::Reverse));
    seg.truncation = Truncation::Both;
    seg.phase = Phase::Two;
    g.cdses = vec![Cds { segments: vec![seg] }];
    let map = GeneMap { genes: vec![g] };
    let first = write(&map);
    let second = write(&map);
    assert!(!first.is_empty());
    assert_eq!(first, second);
}

#[test]
fn each_call_appends_its_own_block() {
    let map = GeneMap { genes: vec![spike(GeneStrand::Forward)] };
    let mut writer = GenbankTblWriter::new(Vec::new()).unwrap();
    writer.write_genemap(&map).unwrap();
    writer.write_genemap(&GeneMap { genes: vec![] }).unwrap();
    writer.write_genemap(&map).unwrap();
    let block = ">Feature \n1\t10\tgene\n\t\t\tgene\tS\n";
    assert_eq!(String::from_utf8(writer.into_inner().unwrap()).unwrap(), format!("{block}{block}"));
}

#[test]
fn writer_keeps_what_the_buffer_held() {
    let mut writer = GenbankTblWriter::new(b"# before\n".to_vec()).unwrap();
    writer.write_genemap(&GeneMap { genes: vec![gene(0, 10, Some(GeneStrand::Forward))] }).unwrap();
    assert_eq!(writer.into_inner().unwrap(), b"# before\n>Feature \n1\t10\tgene\n".to_vec());
}

#[test]
fn results_are_rendered_block_after_block() {
    let outputs = [
        NextcladeOutputs { annotation: GeneMap { genes: vec![gene(0, 10, Some(GeneStrand::Forward))] } },
        NextcladeOutputs { annotation: GeneMap { genes: vec![] } },
        NextcladeOutputs { annotation: GeneMap { genes: vec![gene(4, 9, Some(GeneStrand::Reverse))] } },
    ];
    assert_eq!(
        results_to_tbl_string(&outputs).unwrap(),
        ">Feature \n1\t10\tgene\n>Feature \n9\t5\tgene\n"
    );
}

#[test]
fn gene_without_orientation_stops_the_write() {
    let map = GeneMap {
        genes: vec![spike(GeneStrand::Forward), gene(20, 30, None), gene(40, 50, Some(GeneStrand::Forward))],
    };
    let mut writer = GenbankTblWriter::new(Vec::new()).unwrap();
    assert!(matches!(writer.write_genemap(&map), Err(TblError::OrientationUndefined)));
    assert_eq!(writer.into_inner().unwrap(), b">Feature \n1\t10\tgene\n\t\t\tgene\tS\n".to_vec());
}

#[test]
fn segment_without_orientation_stops_the_write() {
    let mut g = gene(0, 100, Some(GeneStrand::Forward));
    g.cdses = vec![Cds {
        segments: vec![segment(5, 8, Some(GeneStrand::Forward)), segment(9, 12, None)],
    }];
    let map = GeneMap { genes: vec![g, gene(200, 300, Some(GeneStrand::Forward))] };
    let mut writer = GenbankTblWriter::new(Vec::new()).unwrap();
    assert!(matches!(writer.write_genemap(&map), Err(TblError::OrientationUndefined)));
    assert_eq!(writer.into_inner().unwrap(), b">Feature \n1\t100\tgene\n6\t8\tCDS\n".to_vec());
}

#[test]
fn rendering_reports_undefined_orientation() {
    let outputs = [NextcladeOutputs { annotation: GeneMap { genes: vec![gene(0, 10, None)] } }];
    assert!(matches!(results_to_tbl_string(&outputs), Err(TblError::OrientationUndefined)));
}

#[test]
fn sink_failure_is_passed_on() {
    let failure = csv::Error::from(std::io::Error::new(std::io::ErrorKind::Other, "disk full"));
    let answer: Result<(), csv::Error> = Err(failure);
    match sink_outcome(answer) {
        Err(TblError::SinkWriteFailure(e)) => assert!(matches!(e.kind(), csv::ErrorKind::Io(_))),
        _ => panic!("a sink failure must stay a sink failure"),
    }
    assert!(matches!(sink_outcome::<u8>(Ok(7)), Ok(7)));
}

#[test]
fn decoding_failure_is_passed_on() {
    let answer = String::from_utf8(vec![0xff, 0xfe]);
    assert!(matches!(decoding_outcome(answer), Err(TblError::TextDecodingFailure(_))));
    assert_eq!(decoding_outcome(String::from_utf8(b"ok".to_vec())).unwrap(), "ok");
}

#[test]
fn error_messages() {
    assert_eq!(TblError::OrientationUndefined.message(), "orientation is undefined");
    let failure = csv::Error::from(std::io::Error::new(std::io::ErrorKind::Other, "disk full"));
    assert_eq!(
        TblError::SinkWriteFailure(failure).message(),
        "the record sink failed to write a row"
    );
    let bad = String::from_utf8(vec![0xff]).unwrap_err();
    assert_eq!(
        TblError::TextDecodingFailure(bad).message(),
        "the written bytes are not valid UTF-8"
    );
}

#[test]
fn long_rows_cross_the_sink_buffer() {
    let long = "x".repeat(20_000);
    let mut g = gene(0, 10, Some(GeneStrand::Forward));
    g.attributes = vec![attribute("note", &[long.as_str(), "short"])];
    let expected = format!(">Feature \n1\t10\tgene\n\t\t\tnote\t{long}\n\t\t\tnote\tshort\n");
    assert_eq!(render(vec![g]), expected);
}

#[test]
fn gene_line_with_sequence_name() {
    let mut g = gene(21562, 25384, Some(GeneStrand::Forward));
    g.gff_seqid = Some("gb|MN908947.3|".to_owned());
    let bytes = write(&GeneMap { genes: vec![g] });
    assert_eq!(bytes, b">Feature gb|MN908947.3|\n21563\t25384\tgene\n".to_vec());
}

#[test]
fn later_genes_identifier_is_not_used() {
    let mut second = gene(20, 30, Some(GeneStrand::Forward));
    second.gff_seqid = Some("B".to_owned());
    let bytes = write(&GeneMap { genes: vec![gene(0, 10, Some(GeneStrand::Forward)), second] });
    assert_eq!(bytes, b">Feature \n1\t10\tgene\n21\t30\tgene\n".to_vec());
}

#[test]
fn keys_and_values_keep_stored_order() {
    let mut g = gene(0, 10, Some(GeneStrand::Forward));
    g.attributes = vec![attribute("note", &["z", "a"]), attribute("gene", &["S"])];
    assert_eq!(
        render(vec![g]),
        ">Feature \n1\t10\tgene\n\t\t\tnote\tz\n\t\t\tnote\ta\n\t\t\tgene\tS\n"
    );
}

#[test]
fn repeated_values_are_kept() {
    let mut g = gene(0, 10, Some(GeneStrand::Forward));
    g.attributes = vec![attribute("note", &["x", "x"]), attribute("empty", &[])];
    assert_eq!(render(vec![g]), ">Feature \n1\t10\tgene\n\t\t\tnote\tx\n\t\t\tnote\tx\n");
}

#[test]
fn double_quote_is_written_as_it_is() {
    let mut g = gene(0, 10, Some(GeneStrand::Forward));
    g.attributes = vec![attribute("note", &["a\"b"])];
    assert_eq!(
        write(&GeneMap { genes: vec![g] }),
        b">Feature \n1\t10\tgene\n\t\t\tnote\ta\"b\n".to_vec()
    );
}

#[test]
fn both_ends_truncated() {
    let mut g = gene(0, 100, Some(GeneStrand::Forward));
    let mut forward = segment(5, 8, Some(GeneStrand::Forward));
    forward.truncation = Truncation::Both;
    let mut reverse = segment(5, 8, Some(GeneStrand::Reverse));
    reverse.truncation = Truncation::FivePrime;
    g.cdses = vec![Cds { segments: vec![forward] }, Cds { segments: vec![reverse] }];
    assert_eq!(render(vec![g]), ">Feature \n1\t100\tgene\n<6\t>8\tCDS\n<8\t6\tCDS\n");
}

#[test]
fn coding_sequence_without_segments_writes_nothing() {
    let mut g = gene(0, 100, Some(GeneStrand::Forward));
    g.cdses = vec![Cds { segments: vec![] }];
    assert_eq!(write(&GeneMap { genes: vec![g] }), b">Feature \n1\t100\tgene\n".to_vec());
}

#[test]
fn unresolved_gene_leaves_the_destination_as_it_was() {
    let mut writer = GenbankTblWriter::new(b"kept".to_vec()).unwrap();
    let map = GeneMap { genes: vec![gene(0, 10, Some(GeneStrand::Forward)), gene(20, 30, None)] };
    assert!(matches!(writer.write_genemap(&map), Err(TblError::OrientationUndefined)));
    assert_eq!(writer.into_inner().unwrap(), b"kept>Feature \n1\t10\tgene\n".to_vec());
}

#[test]
fn records_with_empty_sets_render_empty_text() {
    let outputs = [
        NextcladeOutputs { annotation: GeneMap { genes: vec![] } },
        NextcladeOutputs { annotation: GeneMap { genes: vec![] } },
    ];
    assert_eq!(results_to_tbl_string(&outputs).unwrap(), "");
}

#[test]
fn rendering_of_a_joined_list_is_the_renderings_joined() {
    let a = NextcladeOutputs { annotation: GeneMap { genes: vec![spike(GeneStrand::Forward)] } };
    let b = NextcladeOutputs {
        annotation: GeneMap { genes: vec![gene(4, 9, Some(GeneStrand::Reverse))] },
    };
    let first = results_to_tbl_string(&[b.clone()]).unwrap();
    let second = results_to_tbl_string(&[a.clone()]).unwrap();
    assert_eq!(results_to_tbl_string(&[b, a]).unwrap(), format!("{first}{second}"));
    assert_eq!(first, ">Feature \n9\t5\tgene\n");
}

#[test]
fn writes_to_a_usable_writer_succeed() {
    let mut writer = GenbankTblWriter::new(Vec::new()).unwrap();
    let mut g = spike(GeneStrand::Forward);
    g.cdses = vec![Cds { segments: vec![segment(5, 8, Some(GeneStrand::Forward))] }];
    let map = GeneMap { genes: vec![g] };
    for _ in 0..1000 {
        assert!(writer.write_genemap(&map).is_ok());
    }
    let bytes = writer.into_inner().unwrap();
    assert_eq!(bytes.len(), 1000 * ">Feature \n1\t10\tgene\n\t\t\tgene\tS\n6\t8\tCDS\n".len());
}
