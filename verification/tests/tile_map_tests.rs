use tilewalk::collision::Instance;
use tilewalk::tile_map::{
    instance_init, slope_instance_init, DecodeError, GridDir, TileMap, TileMapError,
};

fn walls_8x8() -> TileMap {
    TileMap::new(
        vec![
            2, 2, 2, 2, 2, 2, 2, 2, //
            2, 0, 0, 2, 0, 0, 0, 2, //
            2, 0, 0, 2, 0, 1, 0, 2, //
            2, 2, 0, 2, 0, 0, 0, 2, //
            2, 0, 0, 0, 0, 0, 0, 2, //
            2, 0, 0, 0, 0, 1, 0, 2, //
            2, 0, 0, 0, 0, 0, 0, 2, //
            2, 2, 2, 2, 2, 2, 2, 2,
        ],
        8,
        8,
    )
    .unwrap()
}

#[test]
fn new_rejects_cell_count_mismatch() {
    let r = TileMap::new(vec![0, 1, 2], 2, 2);
    assert_eq!(r.unwrap_err(), TileMapError::CellCountMismatch);
    assert!(TileMap::new(vec![0; 4], 2, 2).is_ok());
    assert!(TileMap::new(Vec::new(), 0, 7).is_ok());
}

#[test]
fn cell_lookup_is_guarded() {
    let m = walls_8x8();
    assert_eq!(m.cell(0, 0), Some(2));
    assert_eq!(m.cell(1, 1), Some(0));
    assert_eq!(m.cell(5, 2), Some(1));
    assert_eq!(m.cell(8, 0), None);
    assert_eq!(m.cell(0, 8), None);
}

#[test]
fn out_of_bounds_reads_as_solid() {
    let m = walls_8x8();
    assert!(m.solid_at(-1, 0));
    assert!(m.solid_at(0, -1));
    assert!(m.solid_at(8, 3));
    assert!(m.solid_at(3, 8));
    assert!(m.solid_at(0, 0));
    assert!(!m.solid_at(1, 1));
}

#[test]
fn grid_probe_checks_the_next_cell() {
    let m = walls_8x8();
    // Standing in cell (1, 1) with one-unit cells: the wall column at x = 0
    // blocks a probe toward -x, the open cell (2, 1) does not block +x.
    assert!(m.grid_probe(1500, 1500, 1000, GridDir::XNeg));
    assert!(!m.grid_probe(1500, 1500, 1000, GridDir::XPos));
    // Cell (3, 1) is a wall.
    assert!(m.grid_probe(2500, 1500, 1000, GridDir::XPos));
    // Probing off the authored level is conservatively blocked.
    assert!(m.grid_probe(500, 500, 1000, GridDir::ZNeg));
}

#[test]
fn encode_decode_round_trip() {
    let m = walls_8x8();
    let bytes = m.encode();
    assert_eq!(bytes.len(), 8 + 4 * 64);
    let back = TileMap::decode(&bytes).unwrap();
    assert_eq!(back.width, m.width);
    assert_eq!(back.depth, m.depth);
    assert_eq!(back.cells, m.cells);
}

#[test]
fn encode_decode_round_trip_empty() {
    let m = TileMap::new(Vec::new(), 0, 5).unwrap();
    let bytes = m.encode();
    let back = TileMap::decode(&bytes).unwrap();
    assert_eq!(back.width, 0);
    assert_eq!(back.depth, 5);
    assert_eq!(back.cells, Vec::<u32>::new());
}

#[test]
fn decode_rejects_short_input() {
    assert_eq!(TileMap::decode(&[1, 2, 3]).unwrap_err(), DecodeError::TooShort);
}

#[test]
fn decode_rejects_wrong_length() {
    // Header says 2 x 2 but only three cells follow.
    let mut bytes = Vec::new();
    bytes.extend_from_slice(&2u32.to_le_bytes());
    bytes.extend_from_slice(&2u32.to_le_bytes());
    for c in [7u32, 8, 9] {
        bytes.extend_from_slice(&c.to_le_bytes());
    }
    assert_eq!(TileMap::decode(&bytes).unwrap_err(), DecodeError::LengthMismatch);
}

#[test]
fn instance_init_stacks_blocks_in_grid_order() {
    let m = TileMap::new(vec![1, 0, 0, 2], 2, 2).unwrap();
    let r = instance_init(&m, 1000, 1000, 1000);
    assert_eq!(
        r,
        vec![
            Instance::new(0, 0, 0),
            Instance::new(2000, 0, 2000),
            Instance::new(2000, 2000, 2000),
        ]
    );
}

#[test]
fn slope_instance_init_offsets_the_base_height() {
    let m = TileMap::new(vec![1, 2], 2, 1).unwrap();
    let r = slope_instance_init(&m, 1000, 2000, 1000);
    // Base height is h - 1000 = 1000; stacked copies are 2h = 4000 apart.
    assert_eq!(
        r,
        vec![
            Instance::new(0, 1000, 0),
            Instance::new(2000, 1000, 0),
            Instance::new(2000, 5000, 0),
        ]
    );
}

#[test]
fn grid_probe_floors_negative_coordinates() {
    let m = walls_8x8();
    // x = -0.5 floors to cell -1 (not to 0): a probe toward +x lands in the
    // wall column at x = 0.
    assert!(m.grid_probe(-500, 500, 1000, GridDir::XPos));
    // From cell (0, 1) a probe toward -x leaves the grid: solid.
    assert!(m.grid_probe(500, 1500, 1000, GridDir::XNeg));
}
