//! The records that a data-parallel backend keeps of the forest: a cell as
//! four words, the parameters as twelve, densities and chances in them as
//! single-precision patterns.

use vstd::prelude::*;

use crate::binary32::{
    from_bits, lemma_round_trip_unit, spec_from_bits, spec_to_bits, to_bits, ONE_BITS,
};
use crate::sim::uniform::{be_image, bytes_words, le_image, words_bytes};
use crate::sim::{BurnState, CellState, SimulationFrame, SimulationParameters};

verus! {

/// Words to the cell: sixteen bytes.
pub const CELL_WORDS: usize = 4;

/// Words to the record of parameters: forty-eight bytes.
pub const PARAMETER_WORDS: usize = 12;

/// The word that stands for a cell's fire: the ticks that are left, and zero
/// for no fire.
pub open spec fn spec_burn_word(burning: BurnState) -> u32 {
    match burning {
        BurnState::NotBurning => 0,
        BurnState::Burning { ticks_remaining } => ticks_remaining,
    }
}

/// The four words of a cell: the pattern of one or of zero for the tree,
/// the pattern of the underbrush, the ticks of fire left, and a word of
/// padding.
pub open spec fn spec_cell_words(cell: CellState) -> Seq<u32> {
    seq![
        if cell.tree {
            ONE_BITS
        } else {
            0
        },
        spec_to_bits(cell.underbrush),
        spec_burn_word(cell.burning),
        0,
    ]
}

/// Whether a pattern stands for a number above zero.
pub open spec fn spec_is_positive(bits: u32) -> bool {
    0 < bits <= 0x7f80_0000
}

/// The cell that three words stand for: a tree where the first is a number
/// above zero, the second as underbrush, capped at one, and a fire of as many
/// ticks as the third says, if any.
pub open spec fn spec_cell_from_words(tree: u32, underbrush: u32, burning: u32) -> CellState {
    CellState {
        burning: if burning > 0 {
            BurnState::Burning { ticks_remaining: burning }
        } else {
            BurnState::NotBurning
        },
        underbrush: spec_from_bits(underbrush).spec_clamp_unit(),
        tree: spec_is_positive(tree),
    }
}

/// The words of a grid, cell after cell.
pub open spec fn spec_frame_words(grid: Seq<CellState>) -> Seq<u32> {
    Seq::new(4 * grid.len(), |i: int| spec_cell_words(grid[i / 4])[i % 4])
}

/// The grid that a run of words stands for, four words to the cell.
pub open spec fn spec_grid_from_words(words: Seq<u32>) -> Seq<CellState> {
    Seq::new(
        (words.len() / 4) as nat,
        |i: int| spec_cell_from_words(words[4 * i], words[4 * i + 1], words[4 * i + 2]),
    )
}

/// The twelve words of the parameters, in the order of the fields.
pub open spec fn spec_parameter_words(p: SimulationParameters) -> Seq<u32> {
    seq![
        spec_to_bits(p.tree_growth_rate),
        spec_to_bits(p.underbrush_tree_growth_hindrance),
        spec_to_bits(p.tree_underbrush_generation),
        spec_to_bits(p.tree_death_underbrush),
        spec_to_bits(p.tree_death_rate),
        p.tree_fire_duration,
        p.underbrush_fire_duration,
        spec_to_bits(p.fire_spread_rate),
        spec_to_bits(p.tree_flammability),
        spec_to_bits(p.underbrush_flammability),
        spec_to_bits(p.lightning_frequency),
        p.tick_rate,
    ]
}

/// Why a run of bytes or words is no frame.
#[derive(Clone, Copy, Debug, PartialEq, Eq, Structural)]
pub enum RecordError {
    /// There are not four words for each of `width * height` cells.
    WrongLength,
    /// The bytes do not lie where words can be read.
    Misaligned,
}

/// The words of a grid, cell after cell.
pub fn frame_words(frame: &SimulationFrame) -> (words: Vec<u32>)
    ensures
        words@ == spec_frame_words(frame.grid@),
{
    let total: usize = frame.grid.len();
    let mut words: Vec<u32> = Vec::new();
    let mut i: usize = 0;
    while i < total
        invariant
            i <= total,
            total == frame.grid@.len(),
            words@.len() == 4 * i,
            forall|j: int|
                0 <= j < 4 * i ==> words@[j] == spec_cell_words(frame.grid@[j / 4])[j % 4],
        decreases total - i,
    {
        let cell: CellState = frame.grid[i];
        let ghost before = words@;
        words.push(
            if cell.tree {
                ONE_BITS
            } else {
                0
            },
        );
        words.push(to_bits(cell.underbrush));
        words.push(
            match cell.burning {
                BurnState::NotBurning => 0,
                BurnState::Burning { ticks_remaining } => ticks_remaining,
            },
        );
        words.push(0);
        proof {
            assert forall|j: int| 0 <= j < 4 * (i + 1) implies words@[j] == spec_cell_words(
                frame.grid@[j / 4],
            )[j % 4] by {
                if j < 4 * i {
                    assert(words@[j] == before[j]);
                } else {
                    assert(j / 4 == i);
                }
            }
        }
        i += 1;
    }
    assert(words@ =~= spec_frame_words(frame.grid@));
    words
}

/// The bytes of a grid as the backend stores it: the words of its cells as
/// the machine lays them out.
pub fn frame_bytes(frame: &SimulationFrame) -> (bytes: Vec<u8>)
    ensures
        bytes@ == le_image(spec_frame_words(frame.grid@)) || bytes@ == be_image(
            spec_frame_words(frame.grid@),
        ),
        bytes@.len() == 16 * frame.grid@.len(),
{
    words_bytes(&frame_words(frame))
}

/// The frame of the given size that a run of words stands for. There have to
/// be four words for each cell.
pub fn frame_from_words(words: &Vec<u32>, width: usize, height: usize) -> (frame: Result<
    SimulationFrame,
    RecordError,
>)
    ensures
        words@.len() != 4 * (width * height) ==> frame == Err::<SimulationFrame, RecordError>(
            RecordError::WrongLength,
        ),
        words@.len() == 4 * (width * height) ==> frame is Ok && frame->Ok_0.width == width
            && frame->Ok_0.height == height && frame->Ok_0.grid@ == spec_grid_from_words(words@)
            && frame->Ok_0.wf(),
{
    let have: usize = words.len();
    let cells: usize = match width.checked_mul(height) {
        Some(cells) => cells,
        None => {
            return Err(RecordError::WrongLength);
        },
    };
    if have % 4 != 0 || have / 4 != cells {
        return Err(RecordError::WrongLength);
    }
    let mut grid: Vec<CellState> = Vec::new();
    let mut i: usize = 0;
    while i < cells
        invariant
            i <= cells,
            have == words@.len(),
            have == 4 * cells,
            grid@.len() == i,
            forall|j: int|
                0 <= j < i ==> grid@[j] == spec_cell_from_words(
                    words@[4 * j],
                    words@[4 * j + 1],
                    words@[4 * j + 2],
                ),
        decreases cells - i,
    {
        let tree: u32 = words[4 * i];
        let underbrush: u32 = words[4 * i + 1];
        let burning: u32 = words[4 * i + 2];
        grid.push(
            CellState {
                burning: if burning > 0 {
                    BurnState::Burning { ticks_remaining: burning }
                } else {
                    BurnState::NotBurning
                },
                underbrush: from_bits(underbrush).clamp_unit(),
                tree: 0 < tree && tree <= 0x7f80_0000,
            },
        );
        i += 1;
    }
    assert(grid@ =~= spec_grid_from_words(words@));
    Ok(SimulationFrame { width, height, grid })
}

/// The frame of the given size that a run of bytes stands for, as the
/// backend stores it. The bytes have to be sixteen for each cell, and they
/// have to lie where the machine can read words.
pub fn frame_from_bytes(bytes: &Vec<u8>, width: usize, height: usize) -> (frame: Result<
    SimulationFrame,
    RecordError,
>)
    ensures
        bytes@.len() != 16 * (width * height) ==> frame == Err::<SimulationFrame, RecordError>(
            RecordError::WrongLength,
        ),
        frame matches Ok(f) ==> f.width == width && f.height == height && f.wf() && exists|
            words: Seq<u32>,
        |
            (bytes@ == le_image(words) || bytes@ == be_image(words)) && f.grid@
                == spec_grid_from_words(words),
        bytes@.len() == 16 * (width * height) ==> frame is Ok || frame == Err::<
            SimulationFrame,
            RecordError,
        >(RecordError::Misaligned),
{
    let have: usize = bytes.len();
    let cells: usize = match width.checked_mul(height) {
        Some(cells) => cells,
        None => {
            return Err(RecordError::WrongLength);
        },
    };
    if have % 16 != 0 || have / 16 != cells {
        return Err(RecordError::WrongLength);
    }
    match bytes_words(bytes) {
        None => Err(RecordError::Misaligned),
        Some(words) => {
            let made = frame_from_words(&words, width, height);
            made
        },
    }
}

/// The twelve words of the parameters.
pub fn parameter_words(p: &SimulationParameters) -> (words: Vec<u32>)
    ensures
        words@ == spec_parameter_words(*p),
{
    let mut words: Vec<u32> = Vec::new();
    words.push(to_bits(p.tree_growth_rate));
    words.push(to_bits(p.underbrush_tree_growth_hindrance));
    words.push(to_bits(p.tree_underbrush_generation));
    words.push(to_bits(p.tree_death_underbrush));
    words.push(to_bits(p.tree_death_rate));
    words.push(p.tree_fire_duration);
    words.push(p.underbrush_fire_duration);
    words.push(to_bits(p.fire_spread_rate));
    words.push(to_bits(p.tree_flammability));
    words.push(to_bits(p.underbrush_flammability));
    words.push(to_bits(p.lightning_frequency));
    words.push(p.tick_rate);
    assert(words@ =~= spec_parameter_words(*p));
    words
}

/// The record of the parameters as the backend stores it: its twelve words
/// as the machine lays them out.
pub fn parameter_uniform(p: &SimulationParameters) -> (bytes: Vec<u8>)
    ensures
        bytes@ == le_image(spec_parameter_words(*p)) || bytes@ == be_image(
            spec_parameter_words(*p),
        ),
        bytes@.len() == 48,
{
    words_bytes(&parameter_words(p))
}

/// A well-formed cell comes back from its words with its fire and its tree
/// as they were and its underbrush as its pattern gives it, which is one at
/// most.
pub proof fn lemma_cell_round_trip(cell: CellState)
    requires
        cell.wf(),
    ensures
        ({
            let words = spec_cell_words(cell);
            let back = spec_cell_from_words(words[0], words[1], words[2]);
            &&& back.burning == cell.burning
            &&& back.tree == cell.tree
            &&& back.underbrush == spec_from_bits(spec_to_bits(cell.underbrush))
            &&& back.wf()
        }),
{
    lemma_round_trip_unit(cell.underbrush);
}

} // verus!
