use f06::blocks::types::BlockType;
use f06::flavour::Flavour;
use f06::flavour::SolType;
use f06::flavour::Solver;
use f06::indexing::GridPointRef;
use f06::indexing::NasIndex;
use f06::parser::find_header;
use f06::parser::find_subcase;
use f06::parser::header_shaped;
use f06::parser::is_header_of;
use f06::parser::parse_lines;
use f06::parser::record_header;
use f06::parser::F06File;
use f06::parser::OnePassParser;
use f06::parser::PotentialHeader;
use f06::parser::ABORT_MESSAGE;
use f06::parser::BAD_FLAVOUR_MESSAGE;
use f06::parser::UNTERMINATED_MESSAGE;
use f06::text::normalise;

const ROW1: &str = "      1      G      1.0  2.0  3.0  4.0  5.0  6.0";
const ROW2: &str = "      2      G      1.5  2.5  3.5  4.5  5.5  6.5";
const DASHES: &str = "   -------------  -------------";
const Q: &str = " 1.0E+00  2.0E+00  3.0E+00  4.0E+00  5.0E+00  6.0E+00  7.0E+00  8.0E+00";

fn parse(text: &[&str]) -> F06File {
    let lines: Vec<String> = text.iter().map(|s| s.to_string()).collect();
    parse_lines(&lines)
}

fn spaced(text: &str) -> String {
    let letters: Vec<String> = text.chars().map(|c| c.to_string()).collect();
    letters.join(" ")
}

fn grid(gid: usize) -> NasIndex {
    NasIndex::GridPointRef(GridPointRef { gid })
}

fn heads(file: &F06File) -> Vec<(usize, usize, String)> {
    file.potential_headers
        .iter()
        .map(|h| (h.start, h.span, String::from_utf8(h.text.clone()).unwrap()))
        .collect()
}

#[test]
fn an_empty_report_holds_nothing() {
    let file = parse(&[]);
    assert!(file.blocks.is_empty());
    assert!(file.warnings.is_empty());
    assert!(file.fatal_errors.is_empty());
    assert!(file.potential_headers.is_empty());
    assert_eq!(file.flavour, Flavour { solver: None, soltype: None });
    let parser = OnePassParser::new();
    assert_eq!(parser.subcase, 1);
    assert_eq!(parser.line_no, 0);
    assert!(parser.active.is_none());
}

#[test]
fn every_header_opens_its_block_type_in_both_spellings() {
    for t in BlockType::all() {
        for h in t.headers() {
            assert!(is_header_of(*t, h.as_bytes()));
            assert_eq!(find_header(&normalise(h.as_bytes())), Some(*t), "{}", h);
            let letter_spaced = format!("      {}   ", spaced(h));
            assert_eq!(normalise(letter_spaced.as_bytes()), h.as_bytes().to_vec(), "{}", h);
            assert_eq!(find_header(&normalise(letter_spaced.as_bytes())), Some(*t), "{}", h);
            let padded = format!("   {} AT EACH GRID  ", h);
            assert_eq!(find_header(&normalise(padded.as_bytes())), Some(*t), "{}", h);
            let mixed = format!("0     {}        OPTION = BILIN  ", spaced(h));
            assert_eq!(find_header(&normalise(mixed.as_bytes())), Some(*t), "{}", h);
        }
    }
    assert_eq!(find_header(b"NOTHING KNOWN"), None);
    assert_eq!(find_header(b"displacements"), None);
    assert_eq!(find_header(b""), None);
}

#[test]
fn both_spellings_of_a_header_give_the_same_blocks() {
    let flavours: [&[&str]; 3] = [&[], &["MYSTRAN"], &["SIMCENTER NASTRAN"]];
    for first in flavours {
        for t in BlockType::all() {
            for h in t.headers() {
                let mut plain: Vec<String> = first.iter().map(|s| s.to_string()).collect();
                let mut wide = plain.clone();
                plain.push(h.to_string());
                wide.push(format!("    {}", spaced(h)));
                for rest in [ROW1, &format!("  1 CENTER {}", Q), DASHES] {
                    plain.push(rest.to_string());
                    wide.push(rest.to_string());
                }
                let a = parse_lines(&plain);
                let b = parse_lines(&wide);
                assert_eq!(a.blocks.len(), b.blocks.len(), "{}", h);
                for (x, y) in a.blocks.iter().zip(b.blocks.iter()) {
                    assert_eq!(x.block_type, y.block_type);
                    assert_eq!(x.block_type, *t);
                    assert_eq!(x.row_indexes, y.row_indexes);
                    assert_eq!(x.col_indexes, y.col_indexes);
                    assert_eq!(x.data, y.data);
                    assert_eq!(x.line_range, y.line_range);
                }
                assert_eq!(a.fatal_errors, b.fatal_errors);
                assert_eq!(a.warnings, b.warnings);
                assert_eq!(heads(&a), heads(&b));
            }
        }
    }
}

#[test]
fn a_minimal_block_of_each_grid_table_gives_its_rows() {
    for (header, t) in [
        ("DISPLACEMENTS", BlockType::Displacements),
        ("DISPLACEMENT VECTOR", BlockType::Displacements),
        ("SPC FORCES", BlockType::SpcForces),
        ("FORCES OF SINGLE-POINT CONSTRAINT", BlockType::SpcForces),
        ("APPLIED FORCES", BlockType::AppliedForces),
        ("LOAD VECTOR", BlockType::AppliedForces),
    ] {
        for n in 0..5usize {
            let mut lines = vec![header.to_string()];
            for k in 0..n {
                lines.push(format!("  {}  G  {}.5 0.0 1.0E+00 -2.0E-01 0.25 {}.0E+01", k + 10, k, k));
            }
            lines.push(DASHES.to_string());
            let file = parse_lines(&lines);
            assert_eq!(file.blocks.len(), 1);
            let b = &file.blocks[0];
            assert_eq!(b.block_type, t);
            assert_eq!(b.subcase, 1);
            assert_eq!(b.line_range, Some((1, n + 2)));
            assert_eq!(b.row_indexes, (0..n).map(|k| grid(k + 10)).collect::<Vec<_>>());
            assert_eq!(b.col_indexes.len(), 6);
            for k in 0..n {
                let first = b.get(grid(k + 10), b.col_indexes[0]).unwrap();
                assert_eq!((first.negative, first.mantissa, first.exponent), (false, k as u64 * 10 + 5, -1));
                let last = b.get(grid(k + 10), b.col_indexes[5]).unwrap();
                assert_eq!((last.negative, last.mantissa, last.exponent), (false, k as u64 * 10, 0));
                let fourth = b.get(grid(k + 10), b.col_indexes[3]).unwrap();
                assert_eq!((fourth.negative, fourth.mantissa, fourth.exponent), (true, 20, -2));
            }
            assert!(file.warnings.is_empty());
            assert!(file.fatal_errors.is_empty());
        }
    }
}

#[test]
fn a_minimal_force_balance_block_gives_its_rows() {
    let file = parse(&[
        "MYSTRAN",
        "GRID POINT FORCE BALANCE",
        " FORCE BALANCE FOR GRID POINT   3",
        " APPLIED FORCE  1.0 0.0 0.0 0.0 0.0 0.0",
        " SPC FORCE      2.0 0.0 0.0 0.0 0.0 0.0",
        " *TOTALS*       3.0 0.0 0.0 0.0 0.0 0.0",
        DASHES,
    ]);
    assert_eq!(file.blocks.len(), 1);
    assert_eq!(file.blocks[0].block_type, BlockType::GridPointForceBalance);
    assert_eq!(file.blocks[0].row_indexes.len(), 2);
    assert_eq!(file.blocks[0].col_indexes.len(), 6);
    assert_eq!(file.blocks[0].line_range, Some((2, 7)));
    assert!(file.fatal_errors.is_empty());
}

#[test]
fn a_minimal_quad_block_of_each_kind_gives_its_rows() {
    for (header, t) in [
        ("STRESSES IN QUADRILATERAL ELEMENTS", BlockType::QuadStresses),
        ("STRAINS IN QUADRILATERAL ELEMENTS", BlockType::QuadStrains),
    ] {
        let lines = vec![
            "MYSTRAN".to_string(),
            header.to_string(),
            format!("  1 CENTER {}", Q),
            format!("           {}", Q),
            format!("  2 CENTER {}", Q),
        ];
        let file = parse_lines(&lines);
        assert_eq!(file.blocks.len(), 1);
        assert_eq!(file.blocks[0].block_type, t);
        assert_eq!(file.blocks[0].row_indexes.len(), 3);
        assert_eq!(file.blocks[0].col_indexes.len(), 8);
        assert_eq!(file.blocks[0].line_range, Some((2, 5)));
        assert!(file.warnings.is_empty());
    }
}

#[test]
fn a_line_with_a_leading_integer_outside_a_block_is_ignored() {
    let file = parse(&[ROW1, ROW2, "   7   SOMETHING IN CAPITALS HERE", "DISPLACEMENTS", ROW1, DASHES, ROW2, ROW1]);
    assert_eq!(file.blocks.len(), 1);
    assert_eq!(file.blocks[0].row_indexes, vec![grid(1)]);
    assert_eq!(file.blocks[0].line_range, Some((4, 6)));
    assert!(file.potential_headers.is_empty());
    assert!(file.warnings.is_empty());
    assert!(file.fatal_errors.is_empty());
}

#[test]
fn lines_that_look_like_headers_are_recorded() {
    let file = parse(&[
        "   E I G E N V A L U E S   ",
        "EIGENVALUES",
        "   REAL EIGENVALUES   ",
        "short",
        "SHORT",
        "not In Capitals At All",
        "1234567890",
        "------------------",
        "1.5 TIMES THE LOAD",
        "REAL EIGENVALUES",
        "FORCES IN BAR ELEMENTS",
        "FORCES IN BAR ELEMENTS",
    ]);
    assert_eq!(
        heads(&file),
        vec![
            (1, 2, "EIGENVALUES".to_string()),
            (3, 1, "REAL EIGENVALUES".to_string()),
            (10, 1, "REAL EIGENVALUES".to_string()),
            (11, 2, "FORCES IN BAR ELEMENTS".to_string()),
        ]
    );
    assert!(file.blocks.is_empty());
    assert!(file.warnings.is_empty());
}

#[test]
fn header_shape() {
    assert!(header_shaped(b"EIGENVALUES"));
    assert!(header_shaped(b"A1234567"));
    assert!(header_shaped(b"-5 TIMES X"));
    assert!(!header_shaped(b"A123456"));
    assert!(!header_shaped(b"12345678"));
    assert!(!header_shaped(b"12 TIMES X"));
    assert!(!header_shaped(b"1.5 TIMES X"));
    assert!(!header_shaped(b"EIGENVALUEs"));
    assert!(!header_shaped(b"        "));
    assert!(!header_shaped(b""));
}

#[test]
fn recording_lengthens_a_run_or_starts_one() {
    let mut hs: Vec<PotentialHeader> = Vec::new();
    record_header(&mut hs, 4, b"AAAA".to_vec());
    record_header(&mut hs, 5, b"AAAA".to_vec());
    record_header(&mut hs, 6, b"BBBB".to_vec());
    record_header(&mut hs, 8, b"BBBB".to_vec());
    record_header(&mut hs, 9, b"BBBB".to_vec());
    record_header(&mut hs, 9, b"BBBB".to_vec());
    let got: Vec<(usize, usize)> = hs.iter().map(|h| (h.start, h.span)).collect();
    assert_eq!(got, vec![(4, 2), (6, 1), (8, 2), (9, 1)]);
    assert_eq!(hs[0].last_line(), 5);
    assert_eq!(hs[1].last_line(), 6);
}

#[test]
fn a_header_of_a_block_that_is_not_decoded_is_a_potential_header() {
    let file = parse(&["MYSTRAN", "FORCES IN ROD ELEMENTS", ROW1, DASHES]);
    assert!(file.blocks.is_empty());
    assert_eq!(heads(&file), vec![(2, 1, "FORCES IN ROD ELEMENTS".to_string())]);
}

#[test]
fn a_refused_header_ends_the_block_before_it_and_opens_none() {
    let thermal = "ELEMENT THERMAL STRESSES IN LOCAL ELEMENT COORDINATE SYSTEM FOR ELEMENT TYPE QUAD4";
    let plain = "ELEMENT STRESSES IN LOCAL ELEMENT COORDINATE SYSTEM FOR ELEMENT TYPE QUAD4";
    assert_eq!(find_header(plain.as_bytes()), Some(BlockType::QuadStresses));
    let file = parse(&["MYSTRAN", "DISPLACEMENTS", ROW1, "STRESSES IN QUADRILATERAL ELEMENTS THERMAL", ROW2]);
    assert_eq!(file.blocks.len(), 1);
    assert_eq!(file.blocks[0].block_type, BlockType::Displacements);
    assert_eq!(file.blocks[0].row_indexes, vec![grid(1)]);
    assert_eq!(file.blocks[0].line_range, Some((2, 3)));
    assert_eq!(heads(&file), vec![(4, 1, "STRESSES IN QUADRILATERAL ELEMENTS THERMAL".to_string())]);
    assert_eq!(find_header(thermal.as_bytes()), None);
}

#[test]
fn the_next_header_ends_a_block() {
    let file = parse(&["DISPLACEMENTS", ROW1, "SPC FORCES", ROW2, "APPLIED FORCES", "LOAD VECTOR", ROW1]);
    assert_eq!(file.blocks.len(), 3);
    assert_eq!(file.blocks[0].block_type, BlockType::Displacements);
    assert_eq!(file.blocks[0].line_range, Some((1, 2)));
    assert_eq!(file.blocks[1].block_type, BlockType::SpcForces);
    assert_eq!(file.blocks[1].row_indexes, vec![grid(2)]);
    assert_eq!(file.blocks[1].line_range, Some((3, 4)));
    assert_eq!(file.blocks[2].block_type, BlockType::AppliedForces);
    assert_eq!(file.blocks[2].line_range, Some((6, 7)));
    assert_eq!(file.warnings, vec![(5, UNTERMINATED_MESSAGE.to_string())]);
}

#[test]
fn a_block_without_rows_at_the_end_of_the_report_is_dropped_with_a_warning() {
    let file = parse(&["", "DISPLACEMENTS", "   GRID   T1  T2"]);
    assert!(file.blocks.is_empty());
    assert_eq!(file.warnings, vec![(2, UNTERMINATED_MESSAGE.to_string())]);
    assert!(file.fatal_errors.is_empty());
    let file = parse(&["DISPLACEMENTS", ROW1]);
    assert_eq!(file.blocks.len(), 1);
    assert_eq!(file.blocks[0].line_range, Some((1, 2)));
    assert!(file.warnings.is_empty());
}

#[test]
fn a_terminated_block_without_rows_is_kept() {
    let file = parse(&["DISPLACEMENTS", DASHES]);
    assert_eq!(file.blocks.len(), 1);
    assert_eq!(file.blocks[0].row_indexes.len(), 0);
    assert_eq!(file.blocks[0].line_range, Some((1, 2)));
    assert!(file.warnings.is_empty());
}

#[test]
fn an_abort_loses_the_block_and_no_other() {
    let file = parse(&[
        "MYSTRAN",
        "DISPLACEMENTS",
        ROW1,
        DASHES,
        "GRID POINT FORCE BALANCE",
        " FORCE BALANCE FOR GRID POINT   3",
        " APPLIED FORCE  1.0 0.0 0.0 0.0 0.0 0.0",
        " SPC FORCE      2.0 0.0 0.0",
        " MPC FORCE      2.0 0.0 0.0 0.0 0.0 0.0",
        "SPC FORCES",
        ROW2,
        DASHES,
    ]);
    assert_eq!(file.blocks.len(), 2);
    assert_eq!(file.blocks[0].block_type, BlockType::Displacements);
    assert_eq!(file.blocks[0].row_indexes, vec![grid(1)]);
    assert_eq!(file.blocks[1].block_type, BlockType::SpcForces);
    assert_eq!(file.blocks[1].row_indexes, vec![grid(2)]);
    assert_eq!(file.fatal_errors, vec![(8, ABORT_MESSAGE.to_string())]);
    assert!(file.warnings.is_empty());
    assert_eq!(heads(&file), vec![(9, 1, "MPC FORCE 2.0 0.0 0.0 0.0 0.0 0.0".to_string())]);
}

#[test]
fn a_bad_flavour_loses_the_block_and_no_other() {
    let file = parse(&[
        "DISPLACEMENTS",
        ROW1,
        DASHES,
        "STRESSES IN QUADRILATERAL ELEMENTS",
        "  not a row",
        &format!("  1 CENTER {}", Q),
        &format!("  2 CENTER {}", Q),
        "MYSTRAN",
        "STRESSES IN QUADRILATERAL ELEMENTS",
        &format!("  3 CENTER {}", Q),
    ]);
    assert_eq!(file.blocks.len(), 2);
    assert_eq!(file.blocks[0].block_type, BlockType::Displacements);
    assert_eq!(file.blocks[1].block_type, BlockType::QuadStresses);
    assert_eq!(file.blocks[1].row_indexes.len(), 1);
    assert_eq!(file.blocks[1].line_range, Some((9, 10)));
    assert_eq!(file.fatal_errors, vec![(6, BAD_FLAVOUR_MESSAGE.to_string())]);
    assert_eq!(file.flavour.solver, Some(Solver::Mystran));
}

#[test]
fn subcases_are_tracked() {
    assert_eq!(find_subcase(b" OUTPUT FOR SUBCASE        3"), Some(3));
    assert_eq!(find_subcase(b"0    SUBCASE 12   "), Some(12));
    assert_eq!(find_subcase(b" 4 SUBCASE"), None);
    assert_eq!(find_subcase(b" SUBCASE x 1.5 7 8"), Some(7));
    assert_eq!(find_subcase(b" SUBCASE12"), Some(12));
    assert_eq!(find_subcase(b" LOAD STEP/SUBCASE = 5 OF 9"), Some(5));
    assert_eq!(find_subcase(b" SUBCASE 1 SUBCASE 2"), Some(1));
    assert_eq!(find_subcase(b" subcase 3"), None);
    assert_eq!(find_subcase(b""), None);
    let file = parse(&[
        "DISPLACEMENTS",
        ROW1,
        DASHES,
        " OUTPUT FOR SUBCASE        2",
        "DISPLACEMENTS",
        ROW1,
        " OUTPUT FOR SUBCASE        2",
        ROW2,
        " OUTPUT FOR SUBCASE        3",
        ROW1,
        "DISPLACEMENTS",
        " OUTPUT FOR SUBCASE        4",
    ]);
    assert_eq!(file.blocks.len(), 2);
    assert_eq!(file.blocks[0].subcase, 1);
    assert_eq!(file.blocks[1].subcase, 2);
    assert_eq!(file.blocks[1].row_indexes, vec![grid(1), grid(2)]);
    assert_eq!(file.blocks[1].line_range, Some((5, 8)));
    assert_eq!(file.warnings, vec![(11, UNTERMINATED_MESSAGE.to_string())]);
}

#[test]
fn the_flavour_is_found_once() {
    let mut parser = OnePassParser::new();
    parser.consume("   some words");
    assert_eq!(parser.flavour, Flavour { solver: None, soltype: None });
    parser.consume(" SOL 101");
    assert_eq!(parser.flavour, Flavour { solver: None, soltype: Some(SolType::LinearStatic) });
    parser.consume("  This is Simcenter Nastran   SOL 103");
    assert_eq!(
        parser.flavour,
        Flavour { solver: Some(Solver::Simcenter), soltype: Some(SolType::LinearStatic) }
    );
    parser.consume("  MYSTRAN ");
    assert_eq!(parser.flavour.solver, Some(Solver::Simcenter));
    assert_eq!(parser.line_no, 4);
    let file = parser.finish();
    assert_eq!(file.flavour.solver, Some(Solver::Simcenter));
}

#[test]
fn a_decoder_keeps_the_flavour_of_the_time_of_its_header() {
    let file = parse(&[
        "GRID POINT FORCE BALANCE",
        " FORCE BALANCE FOR GRID POINT   3",
        "MYSTRAN",
        " APPLIED FORCE  1.0 0.0 0.0 0.0 0.0 0.0",
    ]);
    assert!(file.blocks.is_empty());
    assert_eq!(file.fatal_errors, vec![(3, BAD_FLAVOUR_MESSAGE.to_string())]);
    assert_eq!(file.flavour.solver, Some(Solver::Mystran));
}

#[test]
fn feeding_line_by_line_is_parsing_the_lines() {
    let text = ["MYSTRAN", "DISPLACEMENTS", ROW2, ROW1, DASHES, "UNKNOWN TABLE", "SPC FORCES"];
    let mut parser = OnePassParser::new();
    for l in text.iter() {
        parser.consume(l);
    }
    assert_eq!(parser.line_no, 7);
    assert!(parser.active.is_some());
    assert_eq!(parser.blocks.len(), 1);
    let a = parser.finish();
    let b = parse(&text);
    assert_eq!(a.blocks.len(), b.blocks.len());
    assert_eq!(a.blocks[0].row_indexes, vec![grid(1), grid(2)]);
    assert_eq!(a.blocks[0].row_indexes, b.blocks[0].row_indexes);
    assert_eq!(a.blocks[0].data, b.blocks[0].data);
    assert_eq!(a.warnings, b.warnings);
    assert_eq!(a.warnings, vec![(7, UNTERMINATED_MESSAGE.to_string())]);
    assert_eq!(heads(&a), heads(&b));
    assert_eq!(heads(&a), vec![(6, 1, "UNKNOWN TABLE".to_string())]);
}
