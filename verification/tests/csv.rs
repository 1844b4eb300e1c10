use f06::blocks::types::BlockType;
use f06::blocks::FinalBlock;
use f06::blocks::RowBlock;
use f06::csv::from_f06::ixfn_eid;
use f06::csv::from_f06::ixfn_etype;
use f06::csv::from_f06::ixfn_gid;
use f06::csv::from_f06::BlockConverter;
use f06::csv::from_f06::ColumnGenerator;
use f06::csv::from_f06::ConversionError;
use f06::csv::from_f06::IndexFn;
use f06::csv::layout::CsvBlockId;
use f06::csv::layout::CsvField;
use f06::csv::layout::CsvRecord;
use f06::csv::layout::NAS_CSV_COLS;
use f06::elements::ElementType;
use f06::flavour::Flavour;
use f06::flavour::SolType;
use f06::flavour::Solver;
use f06::indexing::Dof;
use f06::indexing::ElementPoint;
use f06::indexing::ElementRef;
use f06::indexing::ElementSide;
use f06::indexing::ElementSidedPoint;
use f06::indexing::ForceOrigin;
use f06::indexing::GridPointForceOrigin;
use f06::indexing::GridPointRef;
use f06::indexing::NasIndex;
use f06::numbers::Decimal;
use f06::numbers::F06Number;

const HEADERS: [&str; 10] = ["a", "b", "c", "d", "e", "f", "g", "h", "i", "j"];

#[test]
fn block_ids_are_listed_by_number() {
    let all = CsvBlockId::all();
    assert_eq!(all.len(), 8);
    for (i, id) in all.iter().enumerate() {
        assert_eq!(id.number(), i);
        assert_eq!(usize::from(*id), i);
        assert_eq!(CsvBlockId::from_number(i), Ok(*id));
        assert_eq!(CsvBlockId::try_from(i), Ok(*id));
        assert_eq!(id.aliases()[0], i.to_string());
        assert_eq!(id.name_with_id(), format!("{} block ID", id.name()));
        assert_eq!(CsvField::from_block_id(*id), CsvField::Natural(i));
    }
    assert_eq!(CsvBlockId::from_number(8), Err(()));
    assert_eq!(CsvBlockId::try_from(8usize), Err(()));
    assert_eq!(CsvBlockId::from_number(usize::MAX), Err(()));
    assert_eq!(NAS_CSV_COLS, 11);
}

#[test]
fn block_ids_have_their_names() {
    assert_eq!(CsvBlockId::SolInfo.name(), "SolutionInfo");
    assert_eq!(CsvBlockId::Displacements.name(), "Displacements");
    assert_eq!(CsvBlockId::Stresses.name(), "Stresses");
    assert_eq!(CsvBlockId::Strains.name(), "Strains");
    assert_eq!(CsvBlockId::EngForces.name(), "EngForces");
    assert_eq!(CsvBlockId::GridPointForces.name(), "GridPointForces");
    assert_eq!(CsvBlockId::AppliedForces.name(), "AppliedForces");
    assert_eq!(CsvBlockId::SpcForces.name(), "SpcForces");
    assert_eq!(CsvBlockId::SolInfo.name_with_id(), "SolutionInfo block ID");
    assert_eq!(CsvBlockId::SpcForces.name_with_id(), "SpcForces block ID");
}

#[test]
fn block_ids_have_their_shorthands_and_aliases() {
    assert_eq!(CsvBlockId::SolInfo.shorthand(), "sol");
    assert_eq!(CsvBlockId::Displacements.shorthand(), "disp");
    assert_eq!(CsvBlockId::Stresses.shorthand(), "stress");
    assert_eq!(CsvBlockId::Strains.shorthand(), "strain");
    assert_eq!(CsvBlockId::EngForces.shorthand(), "engfor");
    assert_eq!(CsvBlockId::GridPointForces.shorthand(), "gpforce");
    assert_eq!(CsvBlockId::AppliedForces.shorthand(), "load");
    assert_eq!(CsvBlockId::SpcForces.shorthand(), "spcfor");
    assert_eq!(CsvBlockId::SolInfo.aliases(), &["0", "solinfo", "sol_info", "info"]);
    assert_eq!(CsvBlockId::Displacements.aliases(), &["1", "disp", "displs", "displacements"]);
    assert_eq!(CsvBlockId::Stresses.aliases(), &["2", "stresses"]);
    assert_eq!(CsvBlockId::Strains.aliases(), &["3", "strains"]);
    assert_eq!(CsvBlockId::EngForces.aliases(), &["4", "engforces", "eng_forces"]);
    assert_eq!(
        CsvBlockId::GridPointForces.aliases(),
        &["5", "gpfb", "gpforces", "grid_point_forces", "grid_point_force_balance"]
    );
    assert_eq!(CsvBlockId::AppliedForces.aliases(), &["6", "applied"]);
    assert_eq!(CsvBlockId::SpcForces.aliases(), &["7", "spcf", "spcforces"]);
}

fn num(mantissa: u64) -> Decimal {
    Decimal { negative: false, mantissa, exponent: -1 }
}

#[test]
fn fields_are_made_from_numbers_and_texts() {
    assert_eq!(CsvField::from_number(F06Number::Real(num(5))), CsvField::Real(num(5)));
    assert_eq!(CsvField::from_number(F06Number::Integer(-3)), CsvField::Integer(-3));
    assert_eq!(CsvField::from_number(F06Number::Natural(3)), CsvField::Natural(3));
    assert_eq!(CsvField::from(F06Number::Real(num(5))), CsvField::Real(num(5)));
    assert_eq!(CsvField::from(F06Number::Integer(-3)), CsvField::Integer(-3));
    assert_eq!(CsvField::from(F06Number::Natural(3)), CsvField::Natural(3));
    assert_eq!(CsvField::from(CsvBlockId::Strains), CsvField::Natural(3));
    assert_eq!(CsvField::text("abc"), CsvField::String("abc".to_string()));
    for f in [
        CsvField::Blank,
        CsvField::Integer(-1),
        CsvField::Natural(1),
        CsvField::Real(num(1)),
        CsvField::String("x".to_string()),
        CsvField::ElementType(ElementType::Rod),
    ] {
        assert_eq!(f.duplicate(), f);
    }
}

#[test]
fn a_record_lists_its_block_id_first() {
    let record = CsvRecord {
        block_id: CsvBlockId::Strains,
        block_type: Some(BlockType::QuadStrains),
        gid: None,
        eid: Some(4),
        etype: None,
        subcase: Some(1),
        fields: vec![CsvField::Natural(4), CsvField::Blank, CsvField::String("x".to_string())],
        headers: &HEADERS,
    };
    let mut heads = vec!["Strains block ID"];
    heads.extend_from_slice(&HEADERS);
    assert_eq!(record.header_as_iter(), heads);
    assert_eq!(
        record.to_fields(),
        vec![
            CsvField::Natural(3),
            CsvField::Natural(4),
            CsvField::Blank,
            CsvField::String("x".to_string())
        ]
    );
}

fn grid(gid: usize) -> NasIndex {
    NasIndex::GridPointRef(GridPointRef { gid })
}

fn element(eid: usize, etype: Option<ElementType>) -> ElementRef {
    ElementRef { eid, etype }
}

fn sided(eid: usize, etype: Option<ElementType>, point: ElementPoint, side: ElementSide) -> NasIndex {
    NasIndex::ElementSidedPoint(ElementSidedPoint { element: element(eid, etype), point, side })
}

fn force(gid: usize, force_origin: ForceOrigin) -> NasIndex {
    NasIndex::GridPointForceOrigin(GridPointForceOrigin {
        grid_point: GridPointRef { gid },
        force_origin,
    })
}

#[test]
fn functions_of_the_row_key() {
    let quad = Some(ElementType::Quad4);
    let corner = ElementPoint::Corner(GridPointRef { gid: 8 });
    let bad = |i: NasIndex| Err(ConversionError::BadRowIndexType(i));
    assert_eq!(ixfn_gid(grid(3)), Ok(CsvField::Natural(3)));
    assert_eq!(ixfn_gid(force(4, ForceOrigin::Load)), Ok(CsvField::Natural(4)));
    assert_eq!(ixfn_gid(sided(1, quad, corner, ElementSide::Top)), Ok(CsvField::Natural(8)));
    let centre = sided(1, quad, ElementPoint::Centroid, ElementSide::Top);
    assert_eq!(ixfn_gid(centre), bad(centre));
    assert_eq!(ixfn_gid(NasIndex::Dof(Dof::Tx)), bad(NasIndex::Dof(Dof::Tx)));
    assert_eq!(ixfn_gid(NasIndex::ElementRef(element(1, quad))), bad(NasIndex::ElementRef(element(1, quad))));
    assert_eq!(ixfn_eid(NasIndex::ElementRef(element(7, None))), Ok(CsvField::Natural(7)));
    assert_eq!(ixfn_eid(centre), Ok(CsvField::Natural(1)));
    let from_element = force(4, ForceOrigin::Element { elem: element(9, quad) });
    assert_eq!(ixfn_eid(from_element), Ok(CsvField::Natural(9)));
    assert_eq!(ixfn_eid(force(4, ForceOrigin::Load)), bad(force(4, ForceOrigin::Load)));
    assert_eq!(ixfn_eid(grid(3)), bad(grid(3)));
    assert_eq!(ixfn_etype(centre), Ok(CsvField::ElementType(ElementType::Quad4)));
    assert_eq!(ixfn_etype(from_element), Ok(CsvField::ElementType(ElementType::Quad4)));
    let untyped = NasIndex::ElementRef(element(7, None));
    assert_eq!(ixfn_etype(untyped), bad(untyped));
    assert_eq!(ixfn_etype(grid(3)), bad(grid(3)));
    assert_eq!(IndexFn::Side.apply(centre), Ok(CsvField::Natural(1)));
    let bottom = sided(1, quad, corner, ElementSide::Bottom);
    assert_eq!(IndexFn::Side.apply(bottom), Ok(CsvField::Natural(0)));
    assert_eq!(IndexFn::Side.apply(grid(3)), bad(grid(3)));
    assert_eq!(IndexFn::ForceOrigin.apply(force(4, ForceOrigin::Load)), Ok(CsvField::Natural(0)));
    assert_eq!(
        IndexFn::ForceOrigin.apply(force(4, ForceOrigin::SinglePointConstraint)),
        Ok(CsvField::Natural(1))
    );
    assert_eq!(
        IndexFn::ForceOrigin.apply(force(4, ForceOrigin::MultiPointConstraint)),
        Ok(CsvField::Natural(2))
    );
    assert_eq!(IndexFn::ForceOrigin.apply(from_element), Ok(CsvField::Natural(3)));
    assert_eq!(IndexFn::ForceOrigin.apply(centre), bad(centre));
}

fn sample_block() -> FinalBlock {
    let mut rb = RowBlock::new(vec![NasIndex::Dof(Dof::Tx), NasIndex::Dof(Dof::Ty)]);
    rb.insert(grid(2), vec![num(21), num(22)]);
    rb.insert(grid(1), vec![num(11), num(12)]);
    rb.finalise(BlockType::Displacements, 6, Some((1, 3)))
}

#[test]
fn each_generator_makes_its_field() {
    let block = sample_block();
    let known = Flavour { solver: Some(Solver::Mystran), soltype: Some(SolType::LinearStatic) };
    let unknown = Flavour { solver: None, soltype: None };
    let text = |s: &str| Ok(CsvField::String(s.to_string()));
    let tx = NasIndex::Dof(Dof::Tx);
    let tz = NasIndex::Dof(Dof::Tz);
    assert_eq!(ColumnGenerator::Blank.convert(&block, known, grid(1)), Ok(CsvField::Blank));
    assert_eq!(
        ColumnGenerator::ColumnValue(tx).convert(&block, known, grid(2)),
        Ok(CsvField::Real(num(21)))
    );
    assert_eq!(
        ColumnGenerator::ColumnValue(tz).convert(&block, known, grid(2)),
        Err(ConversionError::MissingDatum { row: grid(2), col: tz })
    );
    assert_eq!(
        ColumnGenerator::ColumnValue(tx).convert(&block, known, grid(3)),
        Err(ConversionError::MissingDatum { row: grid(3), col: tx })
    );
    assert_eq!(
        ColumnGenerator::ConstantField(CsvField::Integer(-4)).convert(&block, known, grid(1)),
        Ok(CsvField::Integer(-4))
    );
    assert_eq!(ColumnGenerator::GridId.convert(&block, known, grid(1)), Ok(CsvField::Natural(1)));
    assert_eq!(
        ColumnGenerator::ElementId.convert(&block, known, grid(1)),
        Err(ConversionError::BadRowIndexType(grid(1)))
    );
    assert_eq!(
        ColumnGenerator::ElementType.convert(&block, known, grid(1)),
        Err(ConversionError::BadRowIndexType(grid(1)))
    );
    assert_eq!(
        ColumnGenerator::RowIndexFn(IndexFn::Side).convert(&block, known, grid(1)),
        Err(ConversionError::BadRowIndexType(grid(1)))
    );
    assert_eq!(ColumnGenerator::BlockShortName.convert(&block, known, grid(1)), text("displacements"));
    assert_eq!(
        ColumnGenerator::BlockLongName.convert(&block, known, grid(1)),
        text("Grid point displacements")
    );
    assert_eq!(ColumnGenerator::SolTypeNumber.convert(&block, known, grid(1)), Ok(CsvField::Natural(101)));
    assert_eq!(ColumnGenerator::SolTypeNumber.convert(&block, unknown, grid(1)), text("?"));
    assert_eq!(ColumnGenerator::SolTypeName.convert(&block, known, grid(1)), text("Linear static"));
    assert_eq!(ColumnGenerator::SolTypeName.convert(&block, unknown, grid(1)), text("?"));
    assert_eq!(ColumnGenerator::SolverName.convert(&block, known, grid(1)), text("MYSTRAN"));
    assert_eq!(ColumnGenerator::SolverName.convert(&block, unknown, grid(1)), text("Unknown"));
    assert_eq!(ColumnGenerator::Subcase.convert(&block, known, grid(1)), Ok(CsvField::Natural(6)));
    assert_eq!(
        ColumnGenerator::ConstantNumber(F06Number::Natural(9)).convert(&block, known, grid(1)),
        Ok(CsvField::Natural(9))
    );
    assert_eq!(ColumnGenerator::ConstantString("abc").convert(&block, known, grid(1)), text("abc"));
}

fn generators(first: ColumnGenerator, second: ColumnGenerator) -> Vec<ColumnGenerator> {
    let mut v = vec![first, second];
    while v.len() < 10 {
        v.push(ColumnGenerator::Blank);
    }
    v
}

#[test]
fn a_block_of_the_wrong_type_is_refused() {
    let conv = BlockConverter {
        input_block_type: BlockType::SpcForces,
        output_block_id: CsvBlockId::SpcForces,
        generators: vec![generators(ColumnGenerator::GridId, ColumnGenerator::Subcase)],
        headers: &HEADERS,
    };
    let flavour = Flavour { solver: None, soltype: None };
    let got = conv.convert_block(&sample_block(), &flavour);
    assert_eq!(
        got.err(),
        Some(ConversionError::WrongBlockType {
            got: BlockType::Displacements,
            expected: BlockType::SpcForces
        })
    );
}

#[test]
fn a_block_gives_a_record_for_each_row_and_row_generator() {
    let tx = NasIndex::Dof(Dof::Tx);
    let tz = NasIndex::Dof(Dof::Tz);
    let conv = BlockConverter {
        input_block_type: BlockType::Displacements,
        output_block_id: CsvBlockId::Displacements,
        generators: vec![
            generators(ColumnGenerator::GridId, ColumnGenerator::ColumnValue(tx)),
            generators(ColumnGenerator::ElementId, ColumnGenerator::ColumnValue(tz)),
        ],
        headers: &HEADERS,
    };
    let flavour = Flavour { solver: None, soltype: None };
    let records = conv.convert_block(&sample_block(), &flavour).unwrap();
    assert_eq!(records.len(), 4);
    let error = CsvField::String("<ERROR>".to_string());
    let expected = [
        (Some(1), CsvField::Natural(1), CsvField::Real(num(11))),
        (None, error.clone(), error.clone()),
        (Some(2), CsvField::Natural(2), CsvField::Real(num(21))),
        (None, error.clone(), error.clone()),
    ];
    for (record, (gid, first, second)) in records.iter().zip(expected.iter()) {
        assert_eq!(record.block_id, CsvBlockId::Displacements);
        assert_eq!(record.block_type, Some(BlockType::Displacements));
        assert_eq!(record.subcase, Some(6));
        assert_eq!(record.gid, *gid);
        assert_eq!(record.eid, None);
        assert_eq!(record.etype, None);
        assert_eq!(record.fields.len(), 10);
        assert_eq!(record.fields[0], *first);
        assert_eq!(record.fields[1], *second);
        assert_eq!(record.fields[2], CsvField::Blank);
        assert_eq!(record.headers, &HEADERS);
    }
}

#[test]
fn a_record_names_the_element_of_its_row() {
    let quad = Some(ElementType::Quad4);
    let key = sided(5, quad, ElementPoint::Corner(GridPointRef { gid: 8 }), ElementSide::Top);
    let mut rb = RowBlock::new(vec![NasIndex::Dof(Dof::Tx)]);
    rb.insert(key, vec![num(1)]);
    let block = rb.finalise(BlockType::QuadStresses, 1, None);
    let mut gens = vec![
        ColumnGenerator::ElementType,
        ColumnGenerator::ElementId,
        ColumnGenerator::GridId,
        ColumnGenerator::ElementId,
        ColumnGenerator::RowIndexFn(IndexFn::Side),
    ];
    while gens.len() < 10 {
        gens.push(ColumnGenerator::Blank);
    }
    let conv = BlockConverter {
        input_block_type: BlockType::QuadStresses,
        output_block_id: CsvBlockId::Stresses,
        generators: vec![gens],
        headers: &HEADERS,
    };
    let flavour = Flavour { solver: None, soltype: None };
    let records = conv.convert_block(&block, &flavour).unwrap();
    assert_eq!(records.len(), 1);
    assert_eq!(records[0].gid, Some(8));
    assert_eq!(records[0].eid, Some(5));
    assert_eq!(records[0].etype, Some(ElementType::Quad4));
    assert_eq!(records[0].fields[0], CsvField::ElementType(ElementType::Quad4));
    assert_eq!(records[0].fields[4], CsvField::Natural(1));
    let empty = BlockConverter {
        input_block_type: BlockType::QuadStresses,
        output_block_id: CsvBlockId::Stresses,
        generators: vec![],
        headers: &HEADERS,
    };
    assert_eq!(empty.convert_block(&block, &flavour).unwrap().len(), 0);
}
