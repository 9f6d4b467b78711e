//! The table of relations: one for each pair of operand arities from 0 to 13.

mod left_0;
mod left_1;
mod left_2;
mod left_3;
mod left_4;
mod left_5;
mod left_6;
mod left_7;
mod left_8;
mod left_9;
mod left_10;
mod left_11;
mod left_12;
mod left_13;
