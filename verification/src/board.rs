//! The board: a dense rectangle of cells, stored row by row, together with
//! the population that the cells belong to.

use crate::cell::Cell;
use crate::dice::roll_index;
use crate::direction::Direction;
use crate::error::ConfigError;
use crate::error::OutOfBounds;
use crate::genome::Genome;
use rand::StdRng;
use vstd::arithmetic::div_mod::lemma_fundamental_div_mod;
use vstd::arithmetic::div_mod::lemma_fundamental_div_mod_converse;
use vstd::arithmetic::div_mod::lemma_multiply_divide_lt;
use vstd::prelude::*;

verus! {

/// The saturation of every displayed colour, in percent.
pub const SATURATION: u8 = 100;

/// The lightness of every displayed colour, in percent.
pub const LIGHTNESS: u8 = 50;

/// The colour of one cell for the display: the hue of the cell's species, at
/// a fixed saturation and lightness.
#[derive(Clone, Copy, PartialEq, Eq, Structural, Debug)]
pub struct Color {
    /// The hue as an angle in degrees.
    pub hue: i16,
    /// The saturation in percent.
    pub saturation: u8,
    /// The lightness in percent.
    pub lightness: u8,
}

/// The colour in which cells of `genome` are shown.
pub open spec fn color_of(genome: Genome) -> Color {
    Color { hue: genome.hue, saturation: SATURATION, lightness: LIGHTNESS }
}

/// An enemy neighbour of a cell: the direction in which it lies, where it
/// is, and the cell there.
#[derive(Clone, Copy, PartialEq, Eq, Structural, Debug)]
pub struct Neighbor {
    pub direction: Direction,
    pub x: usize,
    pub y: usize,
    pub cell: Cell,
}

/// What a board is, mathematically: its dimensions, its population and its
/// cells in row-major order.
pub struct BoardView {
    pub width: nat,
    pub height: nat,
    pub genomes: Seq<Genome>,
    pub cells: Seq<Cell>,
}

impl BoardView {
    /// The board's invariant: a population that is not empty and whose
    /// genomes are fit, at least one cell, exactly width times height of
    /// them, each alive and owned by a genome of the population.
    pub open spec fn wf(self) -> bool {
        &&& self.genomes.len() > 0
        &&& 0 < self.width <= usize::MAX
        &&& 0 < self.height <= usize::MAX
        &&& self.cells.len() == self.width * self.height
        &&& self.cells.len() <= usize::MAX
        &&& forall|g: int| 0 <= g < self.genomes.len() ==> (#[trigger] self.genomes[g]).fit()
        &&& forall|i: int|
            0 <= i < self.cells.len() ==> (#[trigger] self.cells[i]).fits(self.genomes)
    }

    /// Whether `(x, y)` lies on the board.
    pub open spec fn contains(self, x: int, y: int) -> bool {
        0 <= x < self.width && 0 <= y < self.height
    }

    /// The place of `(x, y)` in the row-major order.
    pub open spec fn index_of(self, x: int, y: int) -> int {
        y * self.width + x
    }

    /// The column of the cell at place `index`.
    pub open spec fn x_of(self, index: int) -> int {
        index % (self.width as int)
    }

    /// The row of the cell at place `index`.
    pub open spec fn y_of(self, index: int) -> int {
        index / (self.width as int)
    }

    /// The cell at `(x, y)`.
    pub open spec fn at(self, x: int, y: int) -> Cell {
        self.cells[self.index_of(x, y)]
    }

    /// Whether the step from `(x, y)` in direction `d` stays on the board.
    pub open spec fn reaches(self, x: int, y: int, d: Direction) -> bool {
        self.contains(x + d.dx(), y + d.dy())
    }

    /// Whether the neighbour of `(x, y)` in direction `d` is an enemy: it
    /// lies on the board and belongs to another genome than the cell at
    /// `(x, y)`.
    pub open spec fn has_enemy(self, x: int, y: int, d: Direction) -> bool {
        self.reaches(x, y, d) && self.at(x + d.dx(), y + d.dy()).genome != self.at(x, y).genome
    }

    /// The place one step in direction `d` from `place`.
    pub open spec fn target(self, place: int, d: Direction) -> int {
        self.index_of(self.x_of(place) + d.dx(), self.y_of(place) + d.dy())
    }

    /// Whether the cell at `place` can attack in direction `d`: an enemy
    /// lies there that has not fought in this tick.
    pub open spec fn has_target(self, place: int, d: Direction) -> bool {
        self.has_enemy(self.x_of(place), self.y_of(place), d) && !self.cells[self.target(
            place,
            d,
        )].fought_this_tick
    }

    /// The entry that stands for the neighbour of `(x, y)` in direction `d`.
    pub open spec fn neighbor_entry(self, x: int, y: int, d: Direction) -> Neighbor {
        Neighbor {
            direction: d,
            x: (x + d.dx()) as usize,
            y: (y + d.dy()) as usize,
            cell: self.at(x + d.dx(), y + d.dy()),
        }
    }

    /// The enemy neighbours of `(x, y)` among the first `upto` directions
    /// of the canonical order, in that order.
    pub open spec fn enemies_among(self, x: int, y: int, upto: int) -> Seq<Neighbor>
        decreases upto,
    {
        if upto <= 0 {
            Seq::empty()
        } else {
            let before = self.enemies_among(x, y, upto - 1);
            let d = Direction::of_rank(upto - 1);
            if self.has_enemy(x, y, d) {
                before.push(self.neighbor_entry(x, y, d))
            } else {
                before
            }
        }
    }

    /// The enemy neighbours of `(x, y)`, in the canonical order of their
    /// directions.
    pub open spec fn enemies(self, x: int, y: int) -> Seq<Neighbor> {
        self.enemies_among(x, y, 8)
    }

    /// How many of the first `upto` directions lead from `(x, y)` to a place
    /// on the board.
    pub open spec fn reach_count(self, x: int, y: int, upto: int) -> int
        decreases upto,
    {
        if upto <= 0 {
            0
        } else {
            self.reach_count(x, y, upto - 1) + if self.reaches(
                x,
                y,
                Direction::of_rank(upto - 1),
            ) {
                1int
            } else {
                0int
            }
        }
    }

    /// Whether `(x, y)` lies in the first or last column or row.
    pub open spec fn on_border(self, x: int, y: int) -> bool {
        x == 0 || x == self.width - 1 || y == 0 || y == self.height - 1
    }

    /// Whether `(x, y)` lies in the first or last column and in the first or
    /// last row.
    pub open spec fn on_corner(self, x: int, y: int) -> bool {
        (x == 0 || x == self.width - 1) && (y == 0 || y == self.height - 1)
    }

    /// The colours of all cells in row-major order.
    pub open spec fn colors(self) -> Seq<Color> {
        Seq::new(self.cells.len(), |i: int| color_of(self.genomes[self.cells[i].genome as int]))
    }

    /// This board with the cell at place `index` replaced.
    pub open spec fn with_cell(self, index: int, cell: Cell) -> BoardView {
        BoardView { cells: self.cells.update(index, cell), ..self }
    }
}

/// Row-major places and coordinates correspond one to one.
pub proof fn place_of_coords(b: BoardView, x: int, y: int)
    requires
        b.contains(x, y),
    ensures
        0 <= b.index_of(x, y) < b.width * b.height,
        b.x_of(b.index_of(x, y)) == x,
        b.y_of(b.index_of(x, y)) == y,
{
    let w = b.width as int;
    let h = b.height as int;
    assert(0 <= y * w + x < w * h) by (nonlinear_arith)
        requires
            0 <= x < w,
            0 <= y < h,
    ;
    lemma_fundamental_div_mod_converse(y * w + x, w, y, x);
}

/// Every place on the board has coordinates on the board, and they lead
/// back to the place.
pub proof fn coords_of_place(b: BoardView, index: int)
    requires
        b.width > 0,
        0 <= index < b.width * b.height,
    ensures
        b.contains(b.x_of(index), b.y_of(index)),
        b.index_of(b.x_of(index), b.y_of(index)) == index,
{
    let w = b.width as int;
    let h = b.height as int;
    lemma_fundamental_div_mod(index, w);
    lemma_multiply_divide_lt(index, w, h);
    assert(w * (index / w) == (index / w) * w) by (nonlinear_arith);
}

/// The board. It owns its population; a cell names its genome by the
/// genome's place in it. The dimensions are fixed at construction.
pub struct PixelBoard {
    width: usize,
    height: usize,
    genomes: Vec<Genome>,
    cells: Vec<Cell>,
}

impl View for PixelBoard {
    type V = BoardView;

    closed spec fn view(&self) -> BoardView {
        BoardView {
            width: self.width as nat,
            height: self.height as nat,
            genomes: self.genomes@,
            cells: self.cells@,
        }
    }
}

/// The reason, if there is one, for which no board can be built from these
/// dimensions and this population. The first that applies is given.
pub open spec fn board_fault(width: int, height: int, genomes: Seq<Genome>) -> Option<ConfigError> {
    if genomes.len() == 0 {
        Some(ConfigError::EmptyPopulation)
    } else if width == 0 || height == 0 {
        Some(ConfigError::ZeroArea)
    } else if width * height > usize::MAX {
        Some(ConfigError::BoardTooLarge)
    } else if exists|g: int| 0 <= g < genomes.len() && !(#[trigger] genomes[g]).fit() {
        Some(ConfigError::FrailGenome)
    } else {
        None
    }
}

/// The reason, if there is one, for which no board can be built from these
/// dimensions, this population and these cells.
pub open spec fn cells_fault(
    width: int,
    height: int,
    genomes: Seq<Genome>,
    cells: Seq<Cell>,
) -> Option<ConfigError> {
    if board_fault(width, height, genomes) is Some {
        board_fault(width, height, genomes)
    } else if cells.len() != width * height || exists|i: int|
        0 <= i < cells.len() && !(#[trigger] cells[i]).fits(genomes) {
        Some(ConfigError::MisfitCells)
    } else {
        None
    }
}

/// Checks dimensions and population, and computes the number of cells.
fn check_board(width: usize, height: usize, genomes: &Vec<Genome>) -> (r: Result<usize, ConfigError>)
    ensures
        match r {
            Ok(area) => board_fault(width as int, height as int, genomes@) is None && area == width
                * height,
            Err(e) => board_fault(width as int, height as int, genomes@) == Some(e),
        },
{
    if genomes.len() == 0 {
        return Err(ConfigError::EmptyPopulation);
    }
    if width == 0 || height == 0 {
        return Err(ConfigError::ZeroArea);
    }
    let area = match width.checked_mul(height) {
        Some(area) => area,
        None => {
            return Err(ConfigError::BoardTooLarge);
        },
    };
    let mut g: usize = 0;
    while g < genomes.len()
        invariant
            g <= genomes.len(),
            width > 0,
            height > 0,
            area == width * height,
            forall|k: int| 0 <= k < g ==> (#[trigger] genomes@[k]).fit(),
        decreases genomes.len() - g,
    {
        if !genomes[g].is_fit() {
            return Err(ConfigError::FrailGenome);
        }
        g += 1;
    }
    Ok(area)
}

impl PixelBoard {
    /// The board's invariant. Every constructor establishes it and every
    /// method keeps it; only what is written through `cell_at_mut` can
    /// break it.
    pub open spec fn wf(&self) -> bool {
        self@.wf()
    }

    /// Creates a board of `width` times `height` cells. Each cell gets a
    /// genome of the population drawn at random, and freshly rolled
    /// modifiers; it starts at full health, of age zero.
    ///
    /// Fails if the population is empty, if the board would have no cells
    /// or more than `usize` can count, or if a genome is not fit.
    pub fn new(
        width: usize,
        height: usize,
        genomes: Vec<Genome>,
        rng: &mut StdRng,
    ) -> (r: Result<PixelBoard, ConfigError>)
        ensures
            match r {
                Ok(board) => {
                    &&& board_fault(width as int, height as int, genomes@) is None
                    &&& board.wf()
                    &&& board@.width == width
                    &&& board@.height == height
                    &&& board@.genomes == genomes@
                    &&& forall|i: int|
                        0 <= i < board@.cells.len() ==> (#[trigger] board@.cells[i]).newborn(
                            genomes@,
                        )
                },
                Err(e) => board_fault(width as int, height as int, genomes@) == Some(e),
            },
    {
        let area = match check_board(width, height, &genomes) {
            Ok(area) => area,
            Err(e) => {
                return Err(e);
            },
        };
        let mut cells: Vec<Cell> = Vec::new();
        let mut i: usize = 0;
        while i < area
            invariant
                i <= area,
                cells.len() == i,
                genomes.len() > 0,
                forall|g: int| 0 <= g < genomes.len() ==> (#[trigger] genomes@[g]).fit(),
                forall|k: int| 0 <= k < i ==> (#[trigger] cells@[k]).newborn(genomes@),
            decreases area - i,
        {
            let chosen = roll_index(rng, genomes.len());
            cells.push(Cell::new(chosen, &genomes[chosen], rng));
            i += 1;
        }
        Ok(PixelBoard { width, height, genomes, cells })
    }

    /// Builds a board from cells that are already there, in row-major
    /// order.
    ///
    /// Fails as `new` does, and also if the number of cells is not `width`
    /// times `height`, or if a cell is not alive or names no genome of the
    /// population.
    pub fn from_cells(
        width: usize,
        height: usize,
        genomes: Vec<Genome>,
        cells: Vec<Cell>,
    ) -> (r: Result<PixelBoard, ConfigError>)
        ensures
            match r {
                Ok(board) => {
                    &&& cells_fault(width as int, height as int, genomes@, cells@) is None
                    &&& board.wf()
                    &&& board@.width == width
                    &&& board@.height == height
                    &&& board@.genomes == genomes@
                    &&& board@.cells == cells@
                },
                Err(e) => cells_fault(width as int, height as int, genomes@, cells@) == Some(e),
            },
    {
        let area = match check_board(width, height, &genomes) {
            Ok(area) => area,
            Err(e) => {
                return Err(e);
            },
        };
        if cells.len() != area {
            return Err(ConfigError::MisfitCells);
        }
        let mut i: usize = 0;
        while i < cells.len()
            invariant
                i <= cells.len(),
                board_fault(width as int, height as int, genomes@) is None,
                forall|k: int| 0 <= k < i ==> (#[trigger] cells@[k]).fits(genomes@),
            decreases cells.len() - i,
        {
            if !(cells[i].is_alive() && cells[i].genome < genomes.len()) {
                return Err(ConfigError::MisfitCells);
            }
            i += 1;
        }
        Ok(PixelBoard { width, height, genomes, cells })
    }

    /// The number of columns.
    pub fn width(&self) -> (w: usize)
        ensures
            w == self@.width,
    {
        self.width
    }

    /// The number of rows.
    pub fn height(&self) -> (h: usize)
        ensures
            h == self@.height,
    {
        self.height
    }

    /// The number of cells.
    pub fn area(&self) -> (n: usize)
        ensures
            n == self@.cells.len(),
    {
        self.cells.len()
    }

    /// The population, in the order in which cells name its genomes.
    pub fn genomes(&self) -> (genomes: &Vec<Genome>)
        ensures
            genomes@ == self@.genomes,
    {
        &self.genomes
    }

    /// Tests the board's invariant.
    pub fn is_consistent(&self) -> (ok: bool)
        ensures
            ok == self.wf(),
    {
        let area = match check_board(self.width, self.height, &self.genomes) {
            Ok(area) => area,
            Err(_) => {
                return false;
            },
        };
        if self.cells.len() != area {
            return false;
        }
        let mut i: usize = 0;
        while i < self.cells.len()
            invariant
                i <= self.cells.len(),
                forall|k: int| 0 <= k < i ==> (#[trigger] self.cells@[k]).fits(self.genomes@),
            decreases self.cells.len() - i,
        {
            if !(self.cells[i].is_alive() && self.cells[i].genome < self.genomes.len()) {
                return false;
            }
            i += 1;
        }
        true
    }
}

impl PixelBoard {
    /// The row-major place of `(x, y)`, if it lies on the board.
    pub fn locate(&self, x: usize, y: usize) -> (r: Result<usize, OutOfBounds>)
        requires
            self.wf(),
        ensures
            match r {
                Ok(index) => self@.contains(x as int, y as int) && index == self@.index_of(
                    x as int,
                    y as int,
                ) && index < self@.cells.len(),
                Err(e) => !self@.contains(x as int, y as int) && e == (OutOfBounds { x, y }),
            },
    {
        if x < self.width && y < self.height {
            proof {
                place_of_coords(self@, x as int, y as int);
            }
            Ok(y * self.width + x)
        } else {
            Err(OutOfBounds { x, y })
        }
    }

    /// The coordinates of the cell at place `index` of the row-major order.
    pub fn coords(&self, index: usize) -> (at: (usize, usize))
        requires
            self.wf(),
            index < self@.cells.len(),
        ensures
            at.0 == self@.x_of(index as int),
            at.1 == self@.y_of(index as int),
            self@.contains(at.0 as int, at.1 as int),
            self@.index_of(at.0 as int, at.1 as int) == index,
    {
        proof {
            coords_of_place(self@, index as int);
        }
        (index % self.width, index / self.width)
    }

    /// The cell at `(x, y)`, or `OutOfBounds` if there is none.
    pub fn cell_at(&self, x: usize, y: usize) -> (r: Result<&Cell, OutOfBounds>)
        requires
            self.wf(),
        ensures
            match r {
                Ok(cell) => self@.contains(x as int, y as int) && *cell == self@.at(
                    x as int,
                    y as int,
                ),
                Err(e) => !self@.contains(x as int, y as int) && e == (OutOfBounds { x, y }),
            },
    {
        match self.locate(x, y) {
            Ok(index) => Ok(&self.cells[index]),
            Err(e) => Err(e),
        }
    }

    /// The cell at `(x, y)` for writing, or `OutOfBounds` if there is none.
    /// The board is as before but for what the caller writes to that cell.
    /// The board's invariant holds afterwards if and only if the cell as
    /// written is alive and names a genome of the population.
    pub fn cell_at_mut(&mut self, x: usize, y: usize) -> (r: Result<&mut Cell, OutOfBounds>)
        requires
            old(self).wf(),
        ensures
            match r {
                Ok(cell) => {
                    &&& old(self)@.contains(x as int, y as int)
                    &&& *cell == old(self)@.at(x as int, y as int)
                    &&& final(self)@ == old(self)@.with_cell(
                        old(self)@.index_of(x as int, y as int),
                        *final(cell),
                    )
                    &&& final(self).wf() <==> (*final(cell)).fits(old(self)@.genomes)
                },
                Err(e) => {
                    &&& !old(self)@.contains(x as int, y as int)
                    &&& e == (OutOfBounds { x, y })
                    &&& final(self)@ == old(self)@
                },
            },
    {
        match self.locate(x, y) {
            Ok(index) => {
                Ok(&mut self.cells[index])
            },
            Err(e) => Err(e),
        }
    }

    /// The genome that owns the cell at `(x, y)`.
    pub fn genome_at(&self, x: usize, y: usize) -> (r: Result<&Genome, OutOfBounds>)
        requires
            self.wf(),
        ensures
            match r {
                Ok(genome) => self@.contains(x as int, y as int) && *genome
                    == self@.genomes[self@.at(x as int, y as int).genome as int],
                Err(e) => !self@.contains(x as int, y as int) && e == (OutOfBounds { x, y }),
            },
    {
        match self.locate(x, y) {
            Ok(index) => Ok(&self.genomes[self.cells[index].genome]),
            Err(e) => Err(e),
        }
    }

    /// The place of the neighbour of `(x, y)` in direction `d`, if that
    /// neighbour lies on the board and is an enemy of the cell at `(x, y)`.
    pub fn enemy_towards(&self, x: usize, y: usize, d: Direction) -> (r: Option<(usize, usize)>)
        requires
            self.wf(),
            self@.contains(x as int, y as int),
        ensures
            r is Some == self@.has_enemy(x as int, y as int, d),
            r matches Some(at) ==> at.0 == x + d.dx() && at.1 == y + d.dy(),
    {
        match d.offset(x, y) {
            Some((nx, ny)) => {
                if nx < self.width && ny < self.height {
                    proof {
                        place_of_coords(self@, x as int, y as int);
                        place_of_coords(self@, nx as int, ny as int);
                    }
                    let me = &self.cells[y * self.width + x];
                    let other = &self.cells[ny * self.width + nx];
                    if other.genome != me.genome {
                        Some((nx, ny))
                    } else {
                        None
                    }
                } else {
                    None
                }
            },
            None => None,
        }
    }

    /// The place of the neighbour of `(x, y)` in direction `d`, if that
    /// neighbour is an enemy of the cell at `(x, y)` and has not fought in
    /// this tick.
    pub fn target_towards(&self, x: usize, y: usize, d: Direction) -> (r: Option<usize>)
        requires
            self.wf(),
            self@.contains(x as int, y as int),
        ensures
            r is Some == self@.has_target(self@.index_of(x as int, y as int), d),
            r matches Some(place) ==> {
                &&& place == self@.target(self@.index_of(x as int, y as int), d)
                &&& place < self@.cells.len()
                &&& place != self@.index_of(x as int, y as int)
            },
    {
        proof {
            place_of_coords(self@, x as int, y as int);
        }
        match self.enemy_towards(x, y, d) {
            Some((nx, ny)) => {
                proof {
                    place_of_coords(self@, nx as int, ny as int);
                }
                let place = ny * self.width + nx;
                if self.cells[place].fought_this_tick {
                    None
                } else {
                    Some(place)
                }
            },
            None => None,
        }
    }

    /// The enemy neighbours of the cell at `(x, y)`: for each of the eight
    /// directions, in their canonical order, the neighbour in that
    /// direction if it lies on the board and belongs to another genome.
    /// The list is empty where the cell has no enemy neighbour.
    pub fn neighbors_of(&self, x: usize, y: usize) -> (r: Result<Vec<Neighbor>, OutOfBounds>)
        requires
            self.wf(),
        ensures
            match r {
                Ok(list) => {
                    &&& self@.contains(x as int, y as int)
                    &&& list@ == self@.enemies(x as int, y as int)
                    &&& list.len() <= 8
                    &&& self@.on_corner(x as int, y as int) ==> list.len() <= 3
                    &&& self@.on_border(x as int, y as int) ==> list.len() <= 5
                    &&& forall|k: int|
                        0 <= k < list.len() ==> {
                            let n = #[trigger] list@[k];
                            &&& (n.x != x || n.y != y)
                            &&& self@.contains(n.x as int, n.y as int)
                            &&& n.cell == self@.at(n.x as int, n.y as int)
                            &&& n.cell.genome != self@.at(x as int, y as int).genome
                        }
                },
                Err(e) => !self@.contains(x as int, y as int) && e == (OutOfBounds { x, y }),
            },
    {
        if !(x < self.width && y < self.height) {
            return Err(OutOfBounds { x, y });
        }
        let dirs = Direction::all();
        let mut list: Vec<Neighbor> = Vec::new();
        let mut rank: usize = 0;
        while rank < 8
            invariant
                rank <= 8,
                self.wf(),
                self@.contains(x as int, y as int),
                forall|i: int| 0 <= i < 8 ==> #[trigger] dirs[i] == Direction::of_rank(i),
                list@ == self@.enemies_among(x as int, y as int, rank as int),
            decreases 8 - rank,
        {
            let d = dirs[rank];
            match self.enemy_towards(x, y, d) {
                Some((nx, ny)) => {
                    proof {
                        place_of_coords(self@, nx as int, ny as int);
                    }
                    let cell = self.cells[ny * self.width + nx];
                    list.push(Neighbor { direction: d, x: nx, y: ny, cell });
                },
                None => {},
            }
            rank += 1;
        }
        proof {
            enemy_list_is_exact(self@, x as int, y as int, 8);
            borders_limit_reach(self@, x as int, y as int);
        }
        Ok(list)
    }

    /// The cell at `(x, y)` together with its enemy neighbours.
    pub fn cell_and_enemies(&self, x: usize, y: usize) -> (r: Result<
        (Cell, Vec<Neighbor>),
        OutOfBounds,
    >)
        requires
            self.wf(),
        ensures
            match r {
                Ok((cell, list)) => {
                    &&& self@.contains(x as int, y as int)
                    &&& cell == self@.at(x as int, y as int)
                    &&& list@ == self@.enemies(x as int, y as int)
                },
                Err(e) => !self@.contains(x as int, y as int) && e == (OutOfBounds { x, y }),
            },
    {
        let index = match self.locate(x, y) {
            Ok(index) => index,
            Err(e) => {
                return Err(e);
            },
        };
        match self.neighbors_of(x, y) {
            Ok(list) => Ok((self.cells[index], list)),
            Err(e) => Err(e),
        }
    }

    /// One colour per cell, in row-major order: the colour of the genome
    /// that owns the cell. The board is not changed.
    pub fn to_color_buffer(&self) -> (buffer: Vec<Color>)
        requires
            self.wf(),
        ensures
            buffer@ == self@.colors(),
            buffer.len() == self@.width * self@.height,
    {
        let mut buffer: Vec<Color> = Vec::with_capacity(self.cells.len());
        let mut i: usize = 0;
        while i < self.cells.len()
            invariant
                i <= self.cells.len(),
                self.wf(),
                buffer.len() == i,
                forall|k: int|
                    0 <= k < i ==> #[trigger] buffer@[k] == color_of(
                        self@.genomes[self@.cells[k].genome as int],
                    ),
            decreases self.cells.len() - i,
        {
            let genome = &self.genomes[self.cells[i].genome];
            buffer.push(Color { hue: genome.hue, saturation: SATURATION, lightness: LIGHTNESS });
            i += 1;
        }
        buffer
    }

    /// The cell at place `index` of the row-major order.
    pub fn cell(&self, index: usize) -> (cell: &Cell)
        requires
            index < self@.cells.len(),
        ensures
            *cell == self@.cells[index as int],
    {
        &self.cells[index]
    }

    /// The genome at place `id` of the population.
    pub fn genome(&self, id: usize) -> (genome: &Genome)
        requires
            id < self@.genomes.len(),
        ensures
            *genome == self@.genomes[id as int],
    {
        &self.genomes[id]
    }

    /// Replaces the cell at place `index`.
    pub(crate) fn put(&mut self, index: usize, cell: Cell)
        requires
            old(self).wf(),
            index < old(self)@.cells.len(),
            cell.fits(old(self)@.genomes),
        ensures
            final(self).wf(),
            final(self)@ == old(self)@.with_cell(index as int, cell),
    {
        self.cells[index] = cell;
    }
}

/// Replacing one cell keeps the board's invariant exactly if the new cell
/// fits the population.
pub proof fn soundness_after_write(b: BoardView, index: int)
    requires
        b.wf(),
        0 <= index < b.cells.len(),
    ensures
        forall|cell: Cell| #[trigger] b.with_cell(index, cell).wf() <==> cell.fits(b.genomes),
{
    assert forall|cell: Cell| #[trigger] b.with_cell(index, cell).wf() <==> cell.fits(
        b.genomes,
    ) by {
        assert(b.with_cell(index, cell).cells[index] == cell);
    }
}

/// What the list of enemy neighbours holds: each entry is an enemy on the
/// board, next to `(x, y)` and in the entry's direction; an enemy lies in a
/// direction exactly if an entry has that direction; the entries stand in
/// the canonical order of their directions, so no direction occurs twice;
/// and there are no more entries than directions that stay on the board.
pub proof fn enemy_list_is_exact(b: BoardView, x: int, y: int, upto: int)
    requires
        b.wf(),
        b.contains(x, y),
        0 <= upto <= 8,
    ensures
        ({
            let list = b.enemies_among(x, y, upto);
            &&& list.len() <= b.reach_count(x, y, upto) <= upto
            &&& forall|k: int|
                0 <= k < list.len() ==> {
                    let n = #[trigger] list[k];
                    &&& n.direction.rank() < upto
                    &&& b.has_enemy(x, y, n.direction)
                    &&& n == b.neighbor_entry(x, y, n.direction)
                    &&& n.x == x + n.direction.dx()
                    &&& n.y == y + n.direction.dy()
                    &&& (n.x != x || n.y != y)
                    &&& b.contains(n.x as int, n.y as int)
                    &&& n.cell == b.at(n.x as int, n.y as int)
                    &&& n.cell.genome != b.at(x, y).genome
                }
            &&& forall|d: Direction|
                d.rank() < upto && #[trigger] b.has_enemy(x, y, d) ==> exists|k: int|
                    0 <= k < list.len() && (#[trigger] list[k]).direction == d
            &&& forall|j: int, k: int|
                0 <= j < k < list.len() ==> (#[trigger] list[j]).direction.rank() < (
                #[trigger] list[k]).direction.rank()
        }),
    decreases upto,
{
    if upto > 0 {
        enemy_list_is_exact(b, x, y, upto - 1);
        let before = b.enemies_among(x, y, upto - 1);
        let list = b.enemies_among(x, y, upto);
        assert forall|d: Direction|
            d.rank() < upto && #[trigger] b.has_enemy(x, y, d) implies exists|k: int|
            0 <= k < list.len() && (#[trigger] list[k]).direction == d by {
            if d.rank() < upto - 1 {
                let k = choose|k: int|
                    0 <= k < before.len() && (#[trigger] before[k]).direction == d;
                assert(list[k] == before[k]);
            } else {
                assert(list[list.len() - 1].direction == d);
            }
        }
    }
}

/// Of the eight directions at most five stay on the board from a place on
/// its border, and at most three from a corner.
pub proof fn borders_limit_reach(b: BoardView, x: int, y: int)
    requires
        b.contains(x, y),
    ensures
        b.reach_count(x, y, 8) <= 8,
        b.on_border(x, y) ==> b.reach_count(x, y, 8) <= 5,
        b.on_corner(x, y) ==> b.reach_count(x, y, 8) <= 3,
{
    reveal_with_fuel(BoardView::reach_count, 9);
}

} // verus!
