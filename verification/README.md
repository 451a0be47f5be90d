# style

Gecko's style structs, modelled as plain values, and the glue that stores
computed CSS values into them and reads them back, verified with Verus.

Layout of `src/`:

- `units`, `color`, `coord`: app units and border rounding, `nscolor`
  packing, and `nsStyleCoord` with the computed length values stored in it.
- `keywords`, `consts`, `sides`: keyword properties and the Gecko constants
  that stand for them; box sides and corners.
- `style_bits`: the style byte shared by a border-like style and the
  `currentColor` flag of its color.
- One module per style struct: `background`, `border`, `box_struct`,
  `color_struct`, `column`, `font`, `inherited_text`, `list`, `margin`,
  `outline`, `padding`, `pointing`, `position`, `svg`, `text`.
- `computed_values`: the shared style structs of an element, and
  inheritance from a parent.

`app/` holds what is not verified: the process-wide initial values, the C
entry points that hand Gecko its structs, and conversions from the types of
`app_units`, `cssparser` and `euclid`.
