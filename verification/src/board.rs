use vstd::prelude::*;
use crate::error::ProtocolError;
use crate::grid::{all_within, points_within, within, Point};
use crate::snake::{Battlesnake, SnakeView};

verus! {

/// The game board is represented by a standard 2D grid, oriented with (0,0) in
/// the bottom left. The Y-Axis is positive in the up direction, and X-Axis is
/// positive to the right. Coordinates begin at zero, such that a board that is
/// 11x11 will have coordinates ranging from [0, 10].
#[derive(Debug, PartialEq, Eq)]
pub struct Board {
    /// The number of rows in the y-axis of the game board.
    height: usize,
    /// The number of columns in the x-axis of the game board.
    width: usize,
    /// The cells that hold food.
    food: Vec<Point>,
    /// The cells that are hazardous. These only appear in some game modes.
    hazards: Vec<Point>,
    /// The snakes that remain on the board.
    snakes: Vec<Battlesnake>,
}

/// What a [`Board`] holds.
pub struct BoardView {
    pub height: usize,
    pub width: usize,
    pub food: Seq<Point>,
    pub hazards: Seq<Point>,
    pub snakes: Seq<SnakeView>,
}

/// What a sequence of snakes holds, snake by snake.
pub open spec fn snake_views(snakes: Seq<Battlesnake>) -> Seq<SnakeView> {
    snakes.map_values(|s: Battlesnake| s@)
}

impl BoardView {
    /// Both dimensions are positive, and every food cell, hazard cell and cell
    /// of a snake's body lies on the board.
    pub open spec fn fits(self) -> bool {
        &&& self.width > 0
        &&& self.height > 0
        &&& all_within(self.food, self.width as nat, self.height as nat)
        &&& all_within(self.hazards, self.width as nat, self.height as nat)
        &&& forall|i: int|
            0 <= i < self.snakes.len() ==> all_within(
                (#[trigger] self.snakes[i]).body,
                self.width as nat,
                self.height as nat,
            )
    }

    /// Everything fits on the board, and every snake is well formed.
    pub open spec fn well_formed(self) -> bool {
        &&& self.fits()
        &&& forall|i: int| 0 <= i < self.snakes.len() ==> (#[trigger] self.snakes[i]).well_formed()
    }

    /// A board on which some food cell lies outside the grid does not fit.
    pub proof fn law_stray_food_unfit(self, i: int)
        requires
            0 <= i < self.food.len(),
            self.food[i].x >= self.width || self.food[i].y >= self.height,
        ensures
            !self.fits(),
    {
        assert(!within(self.food[i], self.width as nat, self.height as nat));
    }

    /// A board on which some hazard cell lies outside the grid does not fit.
    pub proof fn law_stray_hazard_unfit(self, i: int)
        requires
            0 <= i < self.hazards.len(),
            self.hazards[i].x >= self.width || self.hazards[i].y >= self.height,
        ensures
            !self.fits(),
    {
        assert(!within(self.hazards[i], self.width as nat, self.height as nat));
    }

    /// A board on which some cell of a snake's body lies outside the grid does
    /// not fit.
    pub proof fn law_stray_body_unfit(self, i: int, j: int)
        requires
            0 <= i < self.snakes.len(),
            0 <= j < self.snakes[i].body.len(),
            self.snakes[i].body[j].x >= self.width || self.snakes[i].body[j].y >= self.height,
        ensures
            !self.fits(),
    {
        assert(!within(self.snakes[i].body[j], self.width as nat, self.height as nat));
        assert(!all_within(self.snakes[i].body, self.width as nat, self.height as nat));
    }
}

impl View for Board {
    type V = BoardView;

    closed spec fn view(&self) -> BoardView {
        BoardView {
            height: self.height,
            width: self.width,
            food: self.food@,
            hazards: self.hazards@,
            snakes: snake_views(self.snakes@),
        }
    }
}

impl Clone for Board {
    fn clone(&self) -> (r: Board)
        ensures
            r@ == self@,
    {
        proof {
            use_type_invariant(self);
        }
        let food = self.food.clone();
        let hazards = self.hazards.clone();
        let snakes = self.snakes.clone();
        assert(food@ =~= self.food@);
        assert(hazards@ =~= self.hazards@);
        assert(snake_views(snakes@) =~= snake_views(self.snakes@));
        Board { height: self.height, width: self.width, food, hazards, snakes }
    }
}

impl Board {
    /// Every board is well formed.
    #[verifier::type_invariant]
    pub open spec fn valid(&self) -> bool {
        self@.well_formed()
    }

    /// Builds a board from the values of a message. A board with an empty
    /// dimension, or with a cell outside the grid, is refused as it stands.
    pub fn new(
        width: usize,
        height: usize,
        food: Vec<Point>,
        hazards: Vec<Point>,
        snakes: Vec<Battlesnake>,
    ) -> (r: Result<Board, ProtocolError>)
        ensures
            match r {
                Ok(b) => b@ == (BoardView {
                    height,
                    width,
                    food: food@,
                    hazards: hazards@,
                    snakes: snake_views(snakes@),
                }) && b@.well_formed(),
                Err(e) => e == ProtocolError::MalformedState && !(BoardView {
                    height,
                    width,
                    food: food@,
                    hazards: hazards@,
                    snakes: snake_views(snakes@),
                }).fits(),
            },
    {
        let ghost shape = BoardView {
            height,
            width,
            food: food@,
            hazards: hazards@,
            snakes: snake_views(snakes@),
        };
        if width == 0 || height == 0 {
            return Err(ProtocolError::MalformedState);
        }
        if !points_within(&food, width, height) || !points_within(&hazards, width, height) {
            return Err(ProtocolError::MalformedState);
        }
        let mut i: usize = 0;
        while i < snakes.len()
            invariant
                i <= snakes.len(),
                shape.snakes == snake_views(snakes@),
                shape.width == width,
                shape.height == height,
                forall|j: int|
                    0 <= j < i ==> all_within(
                        (#[trigger] shape.snakes[j]).body,
                        width as nat,
                        height as nat,
                    ) && shape.snakes[j].well_formed(),
            decreases snakes.len() - i,
        {
            let snake = &snakes[i];
            proof {
                use_type_invariant(snake);
                assert(shape.snakes[i as int] == snake@);
            }
            if !points_within(snake.body(), width, height) {
                return Err(ProtocolError::MalformedState);
            }
            i += 1;
        }
        Ok(Board { height, width, food, hazards, snakes })
    }

    pub fn width(&self) -> (w: usize)
        ensures
            w == self@.width,
            w > 0,
    {
        proof {
            use_type_invariant(self);
        }
        self.width
    }

    pub fn height(&self) -> (h: usize)
        ensures
            h == self@.height,
            h > 0,
    {
        proof {
            use_type_invariant(self);
        }
        self.height
    }

    pub fn food(&self) -> (f: &Vec<Point>)
        ensures
            f@ == self@.food,
            self@.well_formed(),
    {
        proof {
            use_type_invariant(self);
        }
        &self.food
    }

    pub fn hazards(&self) -> (h: &Vec<Point>)
        ensures
            h@ == self@.hazards,
            self@.well_formed(),
    {
        proof {
            use_type_invariant(self);
        }
        &self.hazards
    }

    pub fn snakes(&self) -> (s: &Vec<Battlesnake>)
        ensures
            snake_views(s@) == self@.snakes,
            self@.well_formed(),
    {
        proof {
            use_type_invariant(self);
        }
        &self.snakes
    }
}

} // verus!
