# life_of_pie

A pizza kitchen simulation. The library in `src/` holds everything that decides
what happens to the ingredients, with its behaviour stated in Verus contracts and
proved:

- `ingredients`, `error`: the states of dough, tomatoes, cheese and pizza, and the
  errors with their texts;
- `equipment`: ovens, mixers and tables, each accepting one state and producing the
  next, and the time each operation takes;
- `fridge`, `proving_room`, `kitchen`: the stock, fermentation records, proving trays
  and the kitchen's opening layout;
- `chef`: every step of making a pizza;
- `production`: one chef's whole workflow, a batch of chefs sharing a fridge, and
  the proof that a batch makes as many pizzas as the scarcest ingredient allows;
- `pipeline`: how work is split between the workers of a station, and when a
  station may stop.

`app/` runs the simulation with tokio: the kitchen's locks, waiting for equipment,
the time each step takes, one task per chef (`data` mode) or a pipeline of stations
connected by heapless queues (`task` mode).
