use f06::blocks::decoders::dof_cols;
use f06::blocks::decoders::quad_stress_cols;
use f06::blocks::decoders::AppliedForcesDecoder;
use f06::blocks::decoders::Decoder;
use f06::blocks::decoders::DisplacementsDecoder;
use f06::blocks::decoders::GridPointForceBalanceDecoder;
use f06::blocks::decoders::QuadStrainsDecoder;
use f06::blocks::decoders::QuadStressesDecoder;
use f06::blocks::decoders::SpcForcesDecoder;
use f06::blocks::types::BlockType;
use f06::blocks::FinalBlock;
use f06::blocks::LineResponse;
use f06::elements::ElementType;
use f06::flavour::Flavour;
use f06::flavour::SolType;
use f06::flavour::Solver;
use f06::indexing::Dof;
use f06::indexing::ElementPoint;
use f06::indexing::ElementRef;
use f06::indexing::ElementSide;
use f06::indexing::ElementSidedPoint;
use f06::indexing::ForceOrigin;
use f06::indexing::GridPointForceOrigin;
use f06::indexing::GridPointRef;
use f06::indexing::NasIndex;
use f06::indexing::QuadStrainField;
use f06::indexing::QuadStressField;
use f06::numbers::Decimal;

fn mystran() -> Flavour {
    Flavour { solver: Some(Solver::Mystran), soltype: Some(SolType::LinearStatic) }
}

fn simcenter() -> Flavour {
    Flavour { solver: Some(Solver::Simcenter), soltype: None }
}

fn unknown() -> Flavour {
    Flavour { solver: None, soltype: None }
}

fn number(d: Decimal) -> f64 {
    let sign = if d.negative { "-" } else { "" };
    format!("{}{}e{}", sign, d.mantissa, d.exponent).parse::<f64>().unwrap()
}

fn row(block: &FinalBlock, key: NasIndex) -> Vec<f64> {
    block.col_indexes.iter().map(|c| number(block.get(key, *c).unwrap())).collect()
}

fn grid(gid: usize) -> NasIndex {
    NasIndex::GridPointRef(GridPointRef { gid })
}

fn force(gid: usize, force_origin: ForceOrigin) -> NasIndex {
    NasIndex::GridPointForceOrigin(GridPointForceOrigin {
        grid_point: GridPointRef { gid },
        force_origin,
    })
}

fn sided(eid: usize, etype: Option<ElementType>, point: ElementPoint, side: ElementSide) -> NasIndex {
    NasIndex::ElementSidedPoint(ElementSidedPoint { element: ElementRef { eid, etype }, point, side })
}

fn corner(gid: usize) -> ElementPoint {
    ElementPoint::Corner(GridPointRef { gid })
}

#[test]
fn columns_stand_in_their_order() {
    assert_eq!(
        dof_cols(),
        vec![
            NasIndex::Dof(Dof::Tx),
            NasIndex::Dof(Dof::Ty),
            NasIndex::Dof(Dof::Tz),
            NasIndex::Dof(Dof::Rx),
            NasIndex::Dof(Dof::Ry),
            NasIndex::Dof(Dof::Rz),
        ]
    );
    assert_eq!(
        quad_stress_cols(),
        vec![
            NasIndex::QuadStressField(QuadStressField::FibreDistance),
            NasIndex::QuadStressField(QuadStressField::NormalX),
            NasIndex::QuadStressField(QuadStressField::NormalY),
            NasIndex::QuadStressField(QuadStressField::ShearXY),
            NasIndex::QuadStressField(QuadStressField::Angle),
            NasIndex::QuadStressField(QuadStressField::Major),
            NasIndex::QuadStressField(QuadStressField::Minor),
            NasIndex::QuadStressField(QuadStressField::VonMises),
        ]
    );
}

#[test]
fn displacements_decoder_reads_rows_until_the_dashes() {
    let mut d = DisplacementsDecoder::new(mystran());
    assert_eq!(d.consume("     GRID     COORD      T1         T2"), LineResponse::Useless);
    assert_eq!(d.consume("                SYS"), LineResponse::Useless);
    assert_eq!(
        d.consume("        1        0  1.0E+00  2.0E+00  3.0E+00  4.0E+00  5.0E+00  6.0E+00"),
        LineResponse::Data
    );
    assert_eq!(
        d.consume("        2        0 -1.5E-01  0.0      0.0      0.0      0.0      0.0"),
        LineResponse::Data
    );
    assert_eq!(d.consume("  1.0E+00  2.0E+00  3.0E+00  4.0E+00  5.0E+00  6.0E+00"), LineResponse::Useless);
    assert_eq!(d.consume("   3   1.0E+00  2.0E+00  3.0E+00  4.0E+00  5.0E+00"), LineResponse::Useless);
    assert_eq!(d.consume(""), LineResponse::Useless);
    assert_eq!(d.consume("     ------------- ------------- -------------"), LineResponse::Done);
    let fb = d.unwrap(2, Some((10, 20)));
    assert_eq!(fb.block_type, BlockType::Displacements);
    assert_eq!(fb.subcase, 2);
    assert_eq!(fb.line_range, Some((10, 20)));
    assert_eq!(fb.row_indexes, vec![grid(1), grid(2)]);
    assert_eq!(fb.col_indexes, dof_cols());
    assert_eq!(row(&fb, grid(1)), vec![1.0, 2.0, 3.0, 4.0, 5.0, 6.0]);
    assert_eq!(row(&fb, grid(2)), vec![-0.15, 0.0, 0.0, 0.0, 0.0, 0.0]);
}

#[test]
fn dashes_end_a_grid_table_even_on_a_line_with_a_row() {
    let mut d = SpcForcesDecoder::new(unknown());
    assert_eq!(
        d.consume(" 1 ------------- 1.0 2.0 3.0 4.0 5.0 6.0"),
        LineResponse::Done
    );
    assert_eq!(d.unwrap(1, None).row_indexes.len(), 0);
}

#[test]
fn spc_forces_and_applied_forces_read_as_displacements_do() {
    let line = "        9        0  1.0E+00  2.0E+00  3.0E+00  4.0E+00  5.0E+00  6.0E+00";
    let mut s = SpcForcesDecoder::new(unknown());
    assert_eq!(s.consume(line), LineResponse::Data);
    let fb = s.unwrap(1, None);
    assert_eq!(fb.block_type, BlockType::SpcForces);
    assert_eq!(row(&fb, grid(9)), vec![1.0, 2.0, 3.0, 4.0, 5.0, 6.0]);
    let mut a = AppliedForcesDecoder::new(simcenter());
    assert_eq!(a.consume(line), LineResponse::Data);
    assert_eq!(a.consume(line), LineResponse::Data);
    let fb = a.unwrap(1, None);
    assert_eq!(fb.block_type, BlockType::AppliedForces);
    assert_eq!(fb.row_indexes, vec![grid(9)]);
    assert_eq!(fb.col_indexes, dof_cols());
}

#[test]
fn force_balance_of_mystran() {
    let mut d = GridPointForceBalanceDecoder::new(mystran());
    let quad = Some(ElementType::Quad4);
    assert_eq!(d.consume(" APPLIED FORCE   1.0E+00  0.0  0.0  0.0  0.0  0.0"), LineResponse::Useless);
    assert_eq!(
        d.consume(" FORCE BALANCE FOR GRID POINT        4 IN GLOBAL COORD SYSTEM"),
        LineResponse::Metadata
    );
    assert_eq!(d.gpref, Some(GridPointRef { gid: 4 }));
    assert_eq!(d.consume("                    T1       T2       T3"), LineResponse::Useless);
    assert_eq!(d.consume(" APPLIED FORCE   1.0E+00  0.0  0.0  0.0  0.0  0.0"), LineResponse::Data);
    assert_eq!(d.consume(" SPC FORCE      -2.0E+00  0.0  0.0  0.0  0.0  0.0"), LineResponse::Data);
    assert_eq!(d.consume(" MPC FORCE       3.0E+00  0.0  0.0  0.0  0.0  0.0"), LineResponse::Data);
    assert_eq!(
        d.consume(" QUAD4  ELEM     17   4.0E+00  0.0  0.0  0.0  0.0  0.0"),
        LineResponse::Data
    );
    assert_eq!(
        d.consume(" BUSH   ELEM     18   5.0E+00  0.0  0.0  0.0  0.0  0.0"),
        LineResponse::Data
    );
    assert_eq!(d.consume(" ELEM  9.0E+00  0.0  0.0  0.0  0.0  0.0"), LineResponse::Useless);
    assert_eq!(d.consume(" *TOTALS*        0.0  0.0  0.0  0.0  0.0  0.0"), LineResponse::Useless);
    assert_eq!(d.consume(" nothing to see  0.0  0.0  0.0  0.0  0.0  0.0"), LineResponse::Useless);
    assert_eq!(d.consume(" FORCE BALANCE FOR GRID POINT        5"), LineResponse::Metadata);
    assert_eq!(d.consume(" SPC FORCE       6.0E+00  0.0  0.0  0.0  0.0  0.0"), LineResponse::Data);
    assert_eq!(d.consume(" -------------"), LineResponse::Done);
    let fb = d.unwrap(3, None);
    assert_eq!(fb.block_type, BlockType::GridPointForceBalance);
    assert_eq!(
        fb.row_indexes,
        vec![
            force(4, ForceOrigin::Load),
            force(4, ForceOrigin::SinglePointConstraint),
            force(4, ForceOrigin::MultiPointConstraint),
            force(4, ForceOrigin::Element { elem: ElementRef { eid: 17, etype: quad } }),
            force(4, ForceOrigin::Element { elem: ElementRef { eid: 18, etype: None } }),
            force(5, ForceOrigin::SinglePointConstraint),
        ]
    );
    assert_eq!(row(&fb, force(4, ForceOrigin::Load))[0], 1.0);
    assert_eq!(row(&fb, force(4, ForceOrigin::SinglePointConstraint))[0], -2.0);
    assert_eq!(row(&fb, force(4, ForceOrigin::MultiPointConstraint))[0], 3.0);
    assert_eq!(row(&fb, force(5, ForceOrigin::SinglePointConstraint))[0], 6.0);
}

#[test]
fn force_balance_line_without_an_origin_is_useless() {
    for flavour in [mystran(), simcenter()] {
        let mut d = GridPointForceBalanceDecoder::new(flavour);
        assert_eq!(d.consume(" FORCE BALANCE FOR GRID POINT        4"), LineResponse::Metadata);
        assert_eq!(d.consume("   4   1.0  2.0  3.0  4.0  5.0  6.0"), LineResponse::Useless);
        assert_eq!(d.consume("   4   some words that say nothing"), LineResponse::Useless);
        assert_eq!(d.consume("   4   1.0  2.0"), LineResponse::Useless);
        assert_eq!(d.unwrap(1, None).row_indexes.len(), 0);
    }
}

#[test]
fn force_balance_line_with_an_origin_and_bad_values_aborts() {
    let mut d = GridPointForceBalanceDecoder::new(mystran());
    assert_eq!(d.consume(" FORCE BALANCE FOR GRID POINT        4"), LineResponse::Metadata);
    assert_eq!(d.consume(" APPLIED FORCE   1.0E+00  0.0  0.0"), LineResponse::Abort);
    assert_eq!(d.consume(" SPC FORCE   1.0  2.0  3.0  4.0  5.0  6.0  7.0"), LineResponse::Abort);
    assert_eq!(d.consume(" MPC FORCE   1.0  2.0  3.0  4.0  5.0  x"), LineResponse::Abort);
    let mut s = GridPointForceBalanceDecoder::new(simcenter());
    assert_eq!(s.consume("      1      F-OF-SPC   1.0  2.0  3.0"), LineResponse::Abort);
    assert_eq!(s.consume("0     1      APP-LOAD   ******  2.0  3.0 4.0 5.0 6.0"), LineResponse::Abort);
    assert_eq!(s.unwrap(1, None).row_indexes.len(), 0);
}

#[test]
fn force_balance_without_a_known_solver_is_a_bad_flavour() {
    let mut d = GridPointForceBalanceDecoder::new(unknown());
    assert_eq!(d.consume(" FORCE BALANCE FOR GRID POINT        4"), LineResponse::Metadata);
    assert_eq!(d.consume(" *TOTALS*   1.0"), LineResponse::Useless);
    assert_eq!(d.consume(" APPLIED FORCE   1.0  0.0  0.0  0.0  0.0  0.0"), LineResponse::BadFlavour);
    assert_eq!(d.consume(""), LineResponse::BadFlavour);
    assert_eq!(d.consume(" -------------"), LineResponse::Done);
}

#[test]
fn force_balance_of_simcenter() {
    let mut d = GridPointForceBalanceDecoder::new(simcenter());
    let quad = Some(ElementType::Quad4);
    assert_eq!(
        d.consume("   POINT-ID    ELEMENT-ID     SOURCE        T1      T2      T3"),
        LineResponse::Useless
    );
    assert_eq!(
        d.consume("0        2                   APP-LOAD   1.0E+00  0.0  0.0  0.0  0.0  0.0"),
        LineResponse::Data
    );
    assert_eq!(d.gpref, Some(GridPointRef { gid: 2 }));
    assert_eq!(
        d.consume("         2                   F-OF-SPC   2.0E+00  0.0  0.0  0.0  0.0  0.0"),
        LineResponse::Data
    );
    assert_eq!(
        d.consume("         2                   F-OF-MPC   3.0E+00  0.0  0.0  0.0  0.0  0.0"),
        LineResponse::Data
    );
    assert_eq!(
        d.consume("         2          31       QUAD4      4.0E+00  0.0  0.0  0.0  0.0  0.0"),
        LineResponse::Data
    );
    assert_eq!(
        d.consume("         2                   *TOTALS*   0.0      0.0  0.0  0.0  0.0  0.0"),
        LineResponse::Useless
    );
    assert_eq!(
        d.consume("         3          31       HEXA       4.0E+00  0.0  0.0  0.0  0.0  0.0"),
        LineResponse::Useless
    );
    assert_eq!(d.gpref, Some(GridPointRef { gid: 3 }));
    assert_eq!(d.consume("         APP-LOAD   1.0E+00  0.0  0.0  0.0  0.0  0.0"), LineResponse::Useless);
    assert_eq!(d.gpref, None);
    let fb = d.unwrap(1, None);
    assert_eq!(
        fb.row_indexes,
        vec![
            force(2, ForceOrigin::Load),
            force(2, ForceOrigin::SinglePointConstraint),
            force(2, ForceOrigin::MultiPointConstraint),
            force(2, ForceOrigin::Element { elem: ElementRef { eid: 31, etype: quad } }),
        ]
    );
    assert_eq!(
        row(&fb, force(2, ForceOrigin::Element { elem: ElementRef { eid: 31, etype: quad } }))[0],
        4.0
    );
}

const V: &str = " 1.0E+00  2.0E+00  3.0E+00  4.0E+00  5.0E+00  6.0E+00  7.0E+00  8.0E+00";

fn quad_line(prefix: &str) -> String {
    format!("{}{}", prefix, V)
}

#[test]
fn quad_stresses_of_mystran() {
    let mut d = QuadStressesDecoder::new(mystran());
    assert!(d.good_header(
        "ELEMENT STRESSES IN LOCAL ELEMENT COORDINATE SYSTEM FOR ELEMENT TYPE QUAD4"
    ));
    assert_eq!(d.etype, Some(ElementType::Quad4));
    let q = Some(ElementType::Quad4);
    assert_eq!(d.consume("  Element  Location  Fibre  Stresses"), LineResponse::Useless);
    assert_eq!(d.consume(&quad_line("   7  CENTER ")), LineResponse::Data);
    assert_eq!(d.consume(&quad_line("             ")), LineResponse::Data);
    assert_eq!(d.consume(&quad_line("      GRD  3 ")), LineResponse::Data);
    assert_eq!(d.consume(&quad_line("             ")), LineResponse::Data);
    assert_eq!(d.consume(&quad_line("      CENTER ")), LineResponse::Data);
    assert_eq!(d.consume(&quad_line("   8  GRD  5 ")), LineResponse::Data);
    assert_eq!(d.consume(&quad_line("   9  GRD    ")), LineResponse::Abort);
    assert_eq!(d.consume(&quad_line("   9  ANYWHERE ")), LineResponse::Abort);
    assert_eq!(d.consume(" ------------- "), LineResponse::Useless);
    let fb = d.unwrap(1, None);
    assert_eq!(fb.block_type, BlockType::QuadStresses);
    assert_eq!(fb.col_indexes, quad_stress_cols());
    assert_eq!(
        fb.row_indexes,
        vec![
            sided(7, q, ElementPoint::Centroid, ElementSide::Bottom),
            sided(7, q, ElementPoint::Centroid, ElementSide::Top),
            sided(7, q, corner(3), ElementSide::Bottom),
            sided(7, q, corner(3), ElementSide::Top),
            sided(8, q, corner(5), ElementSide::Bottom),
        ]
    );
    assert_eq!(
        row(&fb, sided(8, q, corner(5), ElementSide::Bottom)),
        vec![1.0, 2.0, 3.0, 4.0, 5.0, 6.0, 7.0, 8.0]
    );
}

#[test]
fn quad_stresses_of_mystran_keep_the_side_when_the_point_moves() {
    let mut d = QuadStressesDecoder::new(mystran());
    assert_eq!(d.consume(&quad_line("   7  CENTER ")), LineResponse::Data);
    assert_eq!(d.consume(&quad_line("             ")), LineResponse::Data);
    assert_eq!(d.cur_row.unwrap().side, ElementSide::Top);
    assert_eq!(d.consume(&quad_line("      GRD  3 ")), LineResponse::Data);
    assert_eq!(d.cur_row.unwrap().side, ElementSide::Top);
    assert_eq!(d.cur_row.unwrap().point, corner(3));
    assert_eq!(d.consume(&quad_line("      CENTER ")), LineResponse::Data);
    assert_eq!(d.cur_row.unwrap().point, ElementPoint::Centroid);
    assert_eq!(d.cur_row.unwrap().side, ElementSide::Top);
    assert_eq!(d.cur_row.unwrap().element, ElementRef { eid: 7, etype: None });
}

#[test]
fn quad_stresses_abort_without_a_row_to_go_on_with() {
    for prefix in ["             ", "      GRD  3 ", "      CENTER ", "  x  y "] {
        let mut d = QuadStressesDecoder::new(mystran());
        assert_eq!(d.consume(&quad_line(prefix)), LineResponse::Abort, "{}", prefix);
        assert_eq!(d.cur_row, None);
    }
    let mut d = QuadStressesDecoder::new(simcenter());
    assert_eq!(d.consume(&quad_line("             ")), LineResponse::Abort);
    assert_eq!(d.consume(&quad_line("        3    ")), LineResponse::Abort);
    assert_eq!(d.consume(&quad_line("    CEN/4    ")), LineResponse::Abort);
    assert_eq!(d.unwrap(1, None).row_indexes.len(), 0);
}

#[test]
fn quad_stresses_ignore_lines_without_eight_reals() {
    for flavour in [mystran(), simcenter(), unknown()] {
        let mut d = QuadStressesDecoder::new(flavour);
        assert_eq!(d.consume("   7  CENTER  1.0 2.0 3.0"), LineResponse::Useless);
        assert_eq!(d.consume("   7  CENTER  1.0 2.0 3.0 4.0 5.0 6.0 7.0 8.0 9.0"), LineResponse::Useless);
        assert_eq!(d.consume(""), LineResponse::Useless);
        assert_eq!(d.cur_row, None);
    }
}

#[test]
fn quad_stresses_without_a_known_solver_are_a_bad_flavour() {
    let mut d = QuadStressesDecoder::new(unknown());
    assert_eq!(d.consume(&quad_line("   7  CENTER ")), LineResponse::BadFlavour);
    assert_eq!(d.cur_row, None);
}

#[test]
fn quad_stresses_of_simcenter() {
    let mut d = QuadStressesDecoder::new(simcenter());
    assert!(d.good_header("STRESSES IN QUADRILATERAL ELEMENTS (QUAD4)"));
    assert_eq!(d.etype, None);
    assert_eq!(d.consume(&quad_line("0      11    CEN/4  ")), LineResponse::Data);
    assert_eq!(d.consume(&quad_line("                    ")), LineResponse::Data);
    assert_eq!(d.consume(&quad_line("             4      ")), LineResponse::Data);
    assert_eq!(d.consume(&quad_line("                    ")), LineResponse::Data);
    assert_eq!(d.consume(&quad_line("0      12    6      ")), LineResponse::Data);
    let fb = d.unwrap(1, None);
    assert_eq!(
        fb.row_indexes,
        vec![
            sided(11, None, ElementPoint::Centroid, ElementSide::Bottom),
            sided(11, None, ElementPoint::Centroid, ElementSide::Top),
            sided(11, None, corner(4), ElementSide::Bottom),
            sided(11, None, corner(4), ElementSide::Top),
            sided(12, None, corner(6), ElementSide::Top),
        ]
    );
}

#[test]
fn headers_of_thermal_and_elastic_tables_are_refused() {
    let mut d = QuadStressesDecoder::new(mystran());
    assert!(!d.good_header("ELEMENT THERMAL STRESSES IN LOCAL ELEMENT COORDINATE SYSTEM"));
    assert!(!d.good_header("ELEMENT ELASTIC STRAINS FOR ELEMENT TYPE QUAD4"));
    assert_eq!(d.etype, Some(ElementType::Quad4));
    assert!(d.good_header("STRESSES FOR TRIA3"));
    assert_eq!(d.etype, Some(ElementType::Tria3));
    let mut s = QuadStrainsDecoder::new(mystran());
    assert!(!s.good_header("ELEMENT THERMAL STRAINS"));
    assert!(s.good_header("ELEMENT STRAINS"));
}

#[test]
fn quad_strains_read_as_stresses_and_rename_the_columns() {
    let mut d = QuadStrainsDecoder::new(mystran());
    assert!(d.good_header("ELEMENT STRAINS IN LOCAL ELEMENT COORDINATE SYSTEM FOR ELEMENT TYPE QUAD4"));
    assert_eq!(d.consume(&quad_line("   7  CENTER ")), LineResponse::Data);
    assert_eq!(d.consume(&quad_line("             ")), LineResponse::Data);
    assert_eq!(d.consume("  "), LineResponse::Useless);
    let fb = d.unwrap(5, Some((1, 4)));
    assert_eq!(fb.block_type, BlockType::QuadStrains);
    assert_eq!(fb.subcase, 5);
    assert_eq!(fb.line_range, Some((1, 4)));
    assert_eq!(
        fb.col_indexes,
        vec![
            NasIndex::QuadStrainField(QuadStrainField::FibreDistance),
            NasIndex::QuadStrainField(QuadStrainField::NormalX),
            NasIndex::QuadStrainField(QuadStrainField::NormalY),
            NasIndex::QuadStrainField(QuadStrainField::ShearXY),
            NasIndex::QuadStrainField(QuadStrainField::Angle),
            NasIndex::QuadStrainField(QuadStrainField::Major),
            NasIndex::QuadStrainField(QuadStrainField::Minor),
            NasIndex::QuadStrainField(QuadStrainField::VonMises),
        ]
    );
    let q = Some(ElementType::Quad4);
    let key = sided(7, q, ElementPoint::Centroid, ElementSide::Top);
    assert_eq!(row(&fb, key), vec![1.0, 2.0, 3.0, 4.0, 5.0, 6.0, 7.0, 8.0]);
    assert_eq!(fb.get(key, NasIndex::QuadStressField(QuadStressField::NormalX)), None);
}

#[test]
fn a_decoder_of_any_type_answers_as_the_decoder_of_its_type() {
    for t in BlockType::all() {
        let d = Decoder::new(*t, mystran());
        let supported = matches!(
            t,
            BlockType::Displacements
                | BlockType::GridPointForceBalance
                | BlockType::SpcForces
                | BlockType::AppliedForces
                | BlockType::QuadStresses
                | BlockType::QuadStrains
        );
        assert_eq!(d.is_some(), supported, "{:?}", t);
        assert_eq!(t.init_decoder(mystran()).is_some(), supported);
        if let Some(mut d) = d {
            assert_eq!(d.block_type(), *t);
            assert_eq!(d.row_count(), 0);
            assert!(d.good_header(b"ANY HEADER"));
            let fb = d.unwrap(1, None);
            assert_eq!(fb.block_type, *t);
            assert_eq!(fb.row_indexes.len(), 0);
        }
    }
    let mut d = Decoder::new(BlockType::QuadStrains, mystran()).unwrap();
    assert!(!d.good_header(b"THERMAL"));
    assert_eq!(d.consume(&quad_line("   7  CENTER ")), LineResponse::Data);
    assert_eq!(d.row_count(), 1);
    let mut g = Decoder::new(BlockType::AppliedForces, unknown()).unwrap();
    assert_eq!(g.consume(" 3 1.0 2.0 3.0 4.0 5.0 6.0"), LineResponse::Data);
    assert_eq!(g.consume(" -------------"), LineResponse::Done);
    assert_eq!(g.row_count(), 1);
}
