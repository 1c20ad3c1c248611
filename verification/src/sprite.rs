//! Sprites: an image handle paired with the region of it to draw.

use vstd::prelude::*;
use crate::images::Image;
use crate::point::Point;
use crate::rectangle::Rectangle;

verus! {

/// A drawable region of an image.
#[derive(Debug, Copy, Clone, Eq, PartialEq, Structural)]
pub struct Sprite {
    pub image: Image,
    pub area: Rectangle,
}

impl Sprite {
    /// Pairs an image with the region of it to draw.
    pub fn new(image: Image, area: Rectangle) -> (sprite: Sprite)
        ensures
            sprite.image == image,
            sprite.area == area,
    {
        Sprite { image, area }
    }
}

/// The number of whole sprite columns a sheet holds.
pub open spec fn sheet_cols(sprite_size: Point, sheet_size: Point) -> int {
    sheet_size.x as int / sprite_size.x as int
}

/// The number of whole sprite rows a sheet holds.
pub open spec fn sheet_rows(sprite_size: Point, sheet_size: Point) -> int {
    sheet_size.y as int / sprite_size.y as int
}

/// The sprite of grid cell `(row, col)`: the cell-sized region at the
/// cell's position.
pub open spec fn sheet_cell(image: Image, sprite_size: Point, row: int, col: int) -> Sprite {
    Sprite {
        image,
        area: Rectangle {
            x: (sprite_size.x * col) as i32,
            y: (sprite_size.y * row) as i32,
            width: sprite_size.x,
            height: sprite_size.y,
        },
    }
}

/// Cuts a sheet image into its grid of equally sized sprites, row by row
/// from the top-left: the sprite of cell `(row, col)` stands at position
/// `row * cols + col`.
pub fn sheet_sprites(image: Image, sprite_size: Point, sheet_size: Point) -> (sprites: Vec<
    Sprite,
>)
    requires
        sprite_size.x > 0,
        sprite_size.y > 0,
        sheet_size.x >= 0,
        sheet_size.y >= 0,
    ensures
        sprites@.len() == sheet_rows(sprite_size, sheet_size) * sheet_cols(
            sprite_size,
            sheet_size,
        ),
        forall|row: int, col: int|
            0 <= row < sheet_rows(sprite_size, sheet_size)
                && 0 <= col < sheet_cols(sprite_size, sheet_size)
                ==> sprites@[row * sheet_cols(sprite_size, sheet_size) + col]
                    == #[trigger] sheet_cell(image, sprite_size, row, col),
{
    let cols = sheet_size.x / sprite_size.x;
    let rows = sheet_size.y / sprite_size.y;
    proof {
        assert(cols == sheet_cols(sprite_size, sheet_size));
        assert(rows == sheet_rows(sprite_size, sheet_size));
        assert(cols >= 0 && rows >= 0) by (nonlinear_arith)
            requires
                sprite_size.x > 0,
                sprite_size.y > 0,
                sheet_size.x >= 0,
                sheet_size.y >= 0,
                cols == sheet_size.x as int / sprite_size.x as int,
                rows == sheet_size.y as int / sprite_size.y as int,
        ;
    }
    let mut sprites: Vec<Sprite> = Vec::new();
    let mut row: i32 = 0;
    while row < rows
        invariant
            0 <= row <= rows,
            cols == sheet_cols(sprite_size, sheet_size),
            rows == sheet_rows(sprite_size, sheet_size),
            cols >= 0,
            sprite_size.x > 0,
            sprite_size.y > 0,
            sheet_size.x >= 0,
            sheet_size.y >= 0,
            sprites@.len() == row * cols,
            forall|r0: int, c0: int|
                0 <= r0 < row && 0 <= c0 < cols
                    ==> sprites@[r0 * cols + c0]
                        == #[trigger] sheet_cell(image, sprite_size, r0, c0),
        decreases rows - row,
    {
        let mut col: i32 = 0;
        while col < cols
            invariant
                0 <= row < rows,
                0 <= col <= cols,
                cols == sheet_cols(sprite_size, sheet_size),
                rows == sheet_rows(sprite_size, sheet_size),
                sprite_size.x > 0,
                sprite_size.y > 0,
                sheet_size.x >= 0,
                sheet_size.y >= 0,
                sprites@.len() == row * cols + col,
                forall|r0: int, c0: int|
                    0 <= r0 < row && 0 <= c0 < cols
                        ==> sprites@[r0 * cols + c0]
                            == #[trigger] sheet_cell(image, sprite_size, r0, c0),
                forall|c0: int|
                    0 <= c0 < col
                        ==> sprites@[row * cols + c0]
                            == #[trigger] sheet_cell(image, sprite_size, row as int, c0),
            decreases cols - col,
        {
            proof {
                assert(sprite_size.x * col <= sheet_size.x - sprite_size.x
                    && sprite_size.x * col >= 0) by (nonlinear_arith)
                    requires
                        sprite_size.x > 0,
                        sheet_size.x >= 0,
                        0 <= col,
                        col < sheet_size.x as int / sprite_size.x as int,
                ;
                assert(sprite_size.y * row <= sheet_size.y - sprite_size.y
                    && sprite_size.y * row >= 0) by (nonlinear_arith)
                    requires
                        sprite_size.y > 0,
                        sheet_size.y >= 0,
                        0 <= row,
                        row < sheet_size.y as int / sprite_size.y as int,
                ;
            }
            let sprite = Sprite {
                image,
                area: Rectangle {
                    x: sprite_size.x * col,
                    y: sprite_size.y * row,
                    width: sprite_size.x,
                    height: sprite_size.y,
                },
            };
            let ghost prev = sprites@;
            sprites.push(sprite);
            proof {
                assert(sprite == sheet_cell(image, sprite_size, row as int, col as int));
                assert forall|r0: int, c0: int| 0 <= r0 < row && 0 <= c0 < cols
                    implies sprites@[r0 * cols + c0]
                        == sheet_cell(image, sprite_size, r0, c0) by {
                    assert(0 <= r0 * cols + c0 < row * cols + col) by (nonlinear_arith)
                        requires
                            0 <= r0,
                            r0 < row,
                            0 <= c0,
                            c0 < cols,
                            0 <= col,
                    ;
                    assert(sprites@[r0 * cols + c0] == prev[r0 * cols + c0]);
                };
                assert forall|c0: int| 0 <= c0 < col + 1
                    implies sprites@[row * cols + c0]
                        == sheet_cell(image, sprite_size, row as int, c0) by {
                    if c0 < col {
                        assert(sprites@[row * cols + c0] == prev[row * cols + c0]);
                    } else {
                        assert(row * cols + c0 == prev.len());
                    }
                };
            }
            col = col + 1;
        }
        proof {
            assert(row * cols + cols == (row + 1) * cols) by (nonlinear_arith);
        }
        row = row + 1;
    }
    sprites
}

} // verus!
